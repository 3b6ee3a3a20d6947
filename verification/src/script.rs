use vstd::prelude::*;

use vstd::string::StringExecFns;

use crate::text::{escape_backtick_literal, spec_escape};

verus! {

/// Diagnostic tag under which the environment shim runs.
pub const SETUP_LABEL: &'static str = "[mermaid_setup]";

/// Diagnostic tag under which the diagram library runs.
pub const LIBRARY_LABEL: &'static str = "[mermaid_lib]";

/// Diagnostic tag under which the library initialization runs.
pub const INIT_LABEL: &'static str = "[mermaid_init_config]";

/// Diagnostic tag under which the diagram render call runs.
pub const RENDER_LABEL: &'static str = "[mermaid_render]";

/// The environment shim: the minimal synthetic document/window object
/// graph the diagram library probes for at load time, together with a
/// `structuredClone` polyfill (a serialize/deserialize round trip).
/// It must run before the library is loaded, mutates only the global
/// scope, and is idempotent if re-run.
pub const SHIM_SCRIPT: &'static str = "
globalThis.structuredClone = globalThis.structuredClone || function(obj) {
    return JSON.parse(JSON.stringify(obj));
};

if (typeof globalThis.Error === 'undefined') {
    globalThis.Error = function(message) {
        this.message = message;
        this.name = 'Error';
    };
}
globalThis.Error.stackTraceLimit = 10;

if (typeof document === 'undefined') {
    globalThis.document = {
        createElement: function(tag) {
            return {
                tagName: tag.toUpperCase(),
                style: {},
                setAttribute: function(name, value) {
                    this[name] = value;
                },
                appendChild: function(child) {
                    return child;
                },
                removeChild: function(child) {
                    return child;
                },
                innerHTML: '',
                textContent: '',
                querySelector: function() { return null; },
                querySelectorAll: function() { return []; }
            };
        },
        createElementNS: function(ns, tag) {
            return this.createElement(tag);
        },
        createTextNode: function(text) {
            return { nodeValue: text, nodeType: 3 };
        },
        body: {
            appendChild: function(child) { return child; },
            removeChild: function(child) { return child; }
        },
        querySelector: function() { return null; },
        querySelectorAll: function() { return []; },
        getElementById: function() { return null; },
        addEventListener: function() {},
        removeEventListener: function() {},
        createEvent: function() {
            return {
                initEvent: function() {},
                preventDefault: function() {}
            };
        },
        dispatchEvent: function() { return true; }
    };

    globalThis.window = {
        document: globalThis.document,
        location: { href: 'http://localhost' },
        navigator: { userAgent: 'mermaid-it' },
        addEventListener: function() {},
        removeEventListener: function() {},
        dispatchEvent: function() { return true; },
        getComputedStyle: function() {
            return {
                getPropertyValue: function() { return ''; }
            };
        },
        matchMedia: function() {
            return {
                matches: false,
                addListener: function() {},
                removeListener: function() {}
            };
        },
        innerWidth: 1024,
        innerHeight: 768,
        devicePixelRatio: 1
    };
}
";

/// Opens the exception boundary around the diagram library body.
pub const LIBRARY_PREFIX: &'static str = "(function() {
    try {
";

/// Closes the exception boundary: failures of the library's
/// opportunistic browser calls are logged, never propagated.
pub const LIBRARY_SUFFIX: &'static str = "
    } catch (e) {
        console.warn('Some Mermaid features may not work:', e.message);
    }
})();
";

/// Up to the theme name in the library initialization call.
pub const INIT_PREFIX: &'static str = "
if (typeof mermaid !== 'undefined') {
    mermaid.initialize({
        startOnLoad: false,
        theme: '";

/// Between the theme name and the background color.
pub const INIT_MIDDLE: &'static str = "',
        themeVariables: {
            primaryColor: '#fff',
            primaryTextColor: '#000',
            primaryBorderColor: '#000',
            lineColor: '#000',
            background: '";

/// After the background color: layout hints and the relaxed security
/// mode the trusted local diagram source is run under.
pub const INIT_SUFFIX: &'static str = "'
        },
        flowchart: {
            useMaxWidth: true,
            htmlLabels: true
        },
        securityLevel: 'loose'
    });
}
";

/// Up to the escaped diagram source in the render call.
pub const RENDER_PREFIX: &'static str = "
(async function() {
    try {
        const diagramCode = `";

/// After the escaped diagram source: a synthetic container element and
/// the library's asynchronous render entry point under a unique id.
pub const RENDER_SUFFIX: &'static str = "`;

        const container = document.createElement('div');
        container.id = 'mermaid-container';
        container.innerHTML = diagramCode;

        const { svg } = await mermaid.render('mermaid-diagram', diagramCode);

        return svg;
    } catch (error) {
        throw new Error('Failed to render diagram: ' + error.message);
    }
})();
";

/// The environment shim script text.
pub fn shim_script() -> (r: String)
    ensures
        r@ == SHIM_SCRIPT@,
{
    SHIM_SCRIPT.to_owned()
}

/// The diagram library body wrapped in its exception boundary.
pub fn wrap_library(library: &str) -> (r: String)
    ensures
        r@ == LIBRARY_PREFIX@ + library@ + LIBRARY_SUFFIX@,
{
    let mut s = LIBRARY_PREFIX.to_owned();
    s.append(library);
    s.append(LIBRARY_SUFFIX);
    s
}

/// The library initialization call for the given theme and background.
pub fn init_script(theme: &str, background: &str) -> (r: String)
    ensures
        r@ == INIT_PREFIX@ + theme@ + INIT_MIDDLE@ + background@ + INIT_SUFFIX@,
{
    let mut s = INIT_PREFIX.to_owned();
    s.append(theme);
    s.append(INIT_MIDDLE);
    s.append(background);
    s.append(INIT_SUFFIX);
    s
}

/// The render call with the diagram source escaped for safe embedding
/// as a backtick string literal.
pub fn render_script(diagram: &str) -> (r: String)
    ensures
        r@ == RENDER_PREFIX@ + spec_escape(diagram@) + RENDER_SUFFIX@,
{
    let escaped = escape_backtick_literal(diagram);
    let mut s = RENDER_PREFIX.to_owned();
    s.append(escaped.as_str());
    s.append(RENDER_SUFFIX);
    s
}

} // verus!
