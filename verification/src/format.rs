use vstd::prelude::*;

verus! {

/// Output format of a rendered diagram.
///
/// `Svg` is the native vector format; the rest are raster encodings.
/// `Jpg` and `Jpeg` name the same lossy encoder.
#[derive(Debug, Clone, Copy, PartialEq, Eq, Structural)]
pub enum OutputFormat {
    Svg,
    Png,
    Jpg,
    Jpeg,
    Webp,
    Gif,
}

/// `c` is `l` itself or its ASCII upper-case form (`l` is expected to
/// be an ASCII lower-case letter).
pub open spec fn lower_matches(c: char, l: char) -> bool {
    c == l || (c as u32) + 32 == (l as u32)
}

/// `s` equals the lower-case token `t` up to ASCII case.
pub open spec fn token_matches(s: Seq<char>, t: Seq<char>) -> bool {
    s.len() == t.len() && forall|i: int| 0 <= i < s.len() ==> lower_matches(#[trigger] s[i], t[i])
}

impl OutputFormat {
    /// Parses an output-format token, ignoring ASCII case.
    /// Unknown tokens give `None`.
    pub fn from_str(s: &str) -> (r: Option<OutputFormat>)
        ensures
            (r == Some(OutputFormat::Svg)) <==> token_matches(s@, "svg"@),
            (r == Some(OutputFormat::Png)) <==> token_matches(s@, "png"@),
            (r == Some(OutputFormat::Jpg)) <==> token_matches(s@, "jpg"@),
            (r == Some(OutputFormat::Jpeg)) <==> token_matches(s@, "jpeg"@),
            (r == Some(OutputFormat::Webp)) <==> token_matches(s@, "webp"@),
            (r == Some(OutputFormat::Gif)) <==> token_matches(s@, "gif"@),
            r is None <==> !(token_matches(s@, "svg"@) || token_matches(s@, "png"@)
                || token_matches(s@, "jpg"@) || token_matches(s@, "jpeg"@)
                || token_matches(s@, "webp"@) || token_matches(s@, "gif"@)),
    {
        proof {
            reveal_strlit("svg");
            reveal_strlit("png");
            reveal_strlit("jpg");
            reveal_strlit("jpeg");
            reveal_strlit("webp");
            reveal_strlit("gif");
        }
        let n = s.unicode_len();
        if n == 3 {
            let c0 = s.get_char(0);
            let c1 = s.get_char(1);
            let c2 = s.get_char(2);
            if (c0 == 's' || c0 == 'S') && (c1 == 'v' || c1 == 'V') && (c2 == 'g' || c2 == 'G') {
                Some(OutputFormat::Svg)
            } else if (c0 == 'p' || c0 == 'P') && (c1 == 'n' || c1 == 'N') && (c2 == 'g' || c2
                == 'G') {
                Some(OutputFormat::Png)
            } else if (c0 == 'j' || c0 == 'J') && (c1 == 'p' || c1 == 'P') && (c2 == 'g' || c2
                == 'G') {
                Some(OutputFormat::Jpg)
            } else if (c0 == 'g' || c0 == 'G') && (c1 == 'i' || c1 == 'I') && (c2 == 'f' || c2
                == 'F') {
                Some(OutputFormat::Gif)
            } else {
                None
            }
        } else if n == 4 {
            let c0 = s.get_char(0);
            let c1 = s.get_char(1);
            let c2 = s.get_char(2);
            let c3 = s.get_char(3);
            if (c0 == 'j' || c0 == 'J') && (c1 == 'p' || c1 == 'P') && (c2 == 'e' || c2 == 'E')
                && (c3 == 'g' || c3 == 'G') {
                Some(OutputFormat::Jpeg)
            } else if (c0 == 'w' || c0 == 'W') && (c1 == 'e' || c1 == 'E') && (c2 == 'b' || c2
                == 'B') && (c3 == 'p' || c3 == 'P') {
                Some(OutputFormat::Webp)
            } else {
                None
            }
        } else {
            None
        }
    }
}

} // verus!
