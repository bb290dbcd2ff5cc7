//! The fixed entry files and the package manifest of a test app.

use vstd::prelude::*;
use vstd::string::*;
use crate::builder::{file_view, GeneratedFile, PackageJsonConfig, TestAppBuilder};

verus! {

/// Single-page entry that mounts the root module.
pub const INDEX_JSX: &'static str = "import React from \"react\";\nimport { createRoot } from \"react-dom/client\";\nimport Triangle from \"./triangle.jsx\";\n\nfunction App() {\n    return <svg height=\"100%\" viewBox=\"-5 -4.33 10 8.66\" style={{ }}>\n        <Triangle style={{ fill: \"white\" }}/>\n    </svg>\n}\n\ndocument.body.style.backgroundColor = \"black\";\nlet root = document.createElement(\"main\");\ndocument.body.appendChild(root);\ncreateRoot(root).render(<App />);\n";

/// Page-router entry.
pub const PAGES_PAGE_JSX: &'static str = "import React from \"react\";\nimport Triangle from \"../triangle.jsx\";\n\nexport default function Page() {\n    return <svg height=\"100%\" viewBox=\"-5 -4.33 10 8.66\" style={{ backgroundColor: \"black\" }}>\n        <Triangle style={{ fill: \"white\" }}/>\n    </svg>\n}\n";

/// Page-router entry with a static-props export.
pub const PAGES_STATIC_JSX: &'static str = "import React from \"react\";\nimport Triangle from \"../triangle.jsx\";\n\nexport default function Page() {\n    return <svg height=\"100%\" viewBox=\"-5 -4.33 10 8.66\" style={{ backgroundColor: \"black\" }}>\n        <Triangle style={{ fill: \"white\" }}/>\n    </svg>\n}\n\nexport function getStaticProps() {\n    return {\n        props: {}\n    };\n}\n";

/// App-router entry.
pub const APP_PAGE_JSX: &'static str = "import React from \"react\";\nimport Triangle from \"../../triangle.jsx\";\n\nexport default function Page() {\n    return <svg height=\"100%\" viewBox=\"-5 -4.33 10 8.66\" style={{ backgroundColor: \"black\" }}>\n        <Triangle style={{ fill: \"white\" }}/>\n    </svg>\n}\n";

/// The instrumentation component that every module renders, written both
/// beside the root module and on the client side of the app router; it
/// reports hydration and messages.
pub const APP_CLIENT_DETECTOR_JSX: &'static str = "\"use client\";\n\nimport React from \"react\";\n\nexport default function Detector({ message, hydration }) {\n    React.useEffect(() => {\n        if (hydration) {\n            globalThis.__turbopackBenchBinding && globalThis.__turbopackBenchBinding(\"Hydration done\");\n        }\n        if (message) {\n            globalThis.__turbopackBenchBinding && globalThis.__turbopackBenchBinding(message);\n        }\n    }, [message, hydration]);\n    return null;\n}\n";

/// App-router entry on the client side of the boundary.
pub const APP_CLIENT_PAGE_JSX: &'static str = "\"use client\";\nimport React from \"react\";\nimport Triangle from \"../../triangle.jsx\";\n\nexport default function Page() {\n    return <svg height=\"100%\" viewBox=\"-5 -4.33 10 8.66\" style={{ backgroundColor: \"black\" }}>\n        <Triangle style={{ fill: \"white\" }}/>\n    </svg>\n}\n";

/// Root layout wrapper.
pub const LAYOUT_JSX: &'static str = "export default function RootLayout({ children }) {\n    return (\n        <html lang=\"en\">\n            <head>\n                <meta charSet=\"UTF-8\" />\n                <meta name=\"viewport\" content=\"width=device-width, initial-scale=1.0\" />\n                <title>Turbopack Test App</title>\n            </head>\n            <body>\n                {children}\n            </body>\n        </html>\n    );\n}\n";

/// HTML host that loads the entry as a module script.
pub const SRC_INDEX_HTML: &'static str = "<!DOCTYPE html>\n<html lang=\"en\">\n    <head>\n        <meta charset=\"UTF-8\" />\n        <meta name=\"viewport\" content=\"width=device-width, initial-scale=1.0\" />\n        <title>Turbopack Test App</title>\n    </head>\n    <body>\n        <script type=\"module\" src=\"/src/index.jsx\"></script>\n    </body>\n</html>\n";

/// HTML host that loads the bundle with a script tag.
pub const PUBLIC_INDEX_HTML: &'static str = "<!DOCTYPE html>\n<html lang=\"en\">\n    <head>\n        <meta charset=\"UTF-8\" />\n        <meta name=\"viewport\" content=\"width=device-width, initial-scale=1.0\" />\n        <title>Turbopack Test App</title>\n    </head>\n    <body>\n        <script src=\"main.js\"></script>\n    </body>\n</html>\n";

/// A hexadecimal digit, in lower case.
pub open spec fn hex_digit(n: int) -> char {
    "0123456789abcdef"@[n]
}

/// How a JSON string literal writes one character: quote and backslash are
/// escaped, control characters get a short escape or a `\u00XX` one, and
/// every other character stands as it is.
pub open spec fn json_escape_char(c: char) -> Seq<char> {
    if c == '"' {
        "\\\""@
    } else if c == '\\' {
        "\\\\"@
    } else if c == '\u{8}' {
        "\\b"@
    } else if c == '\t' {
        "\\t"@
    } else if c == '\n' {
        "\\n"@
    } else if c == '\u{c}' {
        "\\f"@
    } else if c == '\r' {
        "\\r"@
    } else if (c as u32) < 0x20 {
        "\\u00"@ + seq![hex_digit((c as u32) as int / 16), hex_digit((c as u32) as int % 16)]
    } else {
        seq![c]
    }
}

pub open spec fn json_escaped(s: Seq<char>) -> Seq<char>
    decreases s.len(),
{
    if s.len() == 0 {
        Seq::empty()
    } else {
        json_escape_char(s[0]) + json_escaped(s.drop_first())
    }
}

/// The JSON string literal of `s`.
pub open spec fn json_quoted(s: Seq<char>) -> Seq<char> {
    "\""@ + json_escaped(s) + "\""@
}

/// Relies on `serde_json::to_string` on a `str`: the string as a JSON
/// string literal, quoted and escaped. Writing a `str` into a buffer does not
/// fail, so the error arm is never taken.
#[verifier::external_body]
fn json_quote(s: &str) -> (r: String)
    ensures
        r@ == json_quoted(s@),
{
    match serde_json::to_string(s) {
        Ok(t) => t,
        Err(_) => String::new(),
    }
}

/// The `package.json` of the app, pretty-printed with sorted keys, where
/// `version` is the quoted React version.
pub open spec fn package_json_text(version: Seq<char>) -> Seq<char> {
    "{\n  \"dependencies\": {\n    \"react\": "@ + version + ",\n    \"react-dom\": "@ + version
        + "\n  },\n  \"name\": \"turbopack-test-app\",\n  \"private\": true,\n  \"version\": \"0.0.0\"\n}"@
}

/// The text of `package.json` for `config`.
pub fn package_json_content(config: &PackageJsonConfig) -> (r: String)
    ensures
        r@ == package_json_text(json_quoted(config.react_version@)),
{
    let version = json_quote(config.react_version.as_str());
    let mut s = String::from_str("{\n  \"dependencies\": {\n    \"react\": ");
    s.append(version.as_str());
    s.append(",\n    \"react-dom\": ");
    s.append(version.as_str());
    s.append("\n  },\n  \"name\": \"turbopack-test-app\",\n  \"private\": true,\n  \"version\": \"0.0.0\"\n}");
    assert(s@ =~= package_json_text(json_quoted(config.react_version@)));
    s
}

pub open spec fn fixed(path: Seq<char>, dir: Option<Seq<char>>, content: Seq<char>) -> (Seq<char>, Option<Seq<char>>, Seq<char>) {
    (path, dir, content)
}

/// The fixed entry files that wrap the module tree into a runnable app,
/// with the directories that they need.
pub open spec fn bootstrap_spec() -> Seq<(Seq<char>, Option<Seq<char>>, Seq<char>)> {
    seq![
        fixed("src/detector.jsx"@, None, APP_CLIENT_DETECTOR_JSX@),
        fixed("src/index.jsx"@, None, INDEX_JSX@),
        fixed("src/pages/page.jsx"@, Some("src/pages"@), PAGES_PAGE_JSX@),
        fixed("src/pages/static.jsx"@, None, PAGES_STATIC_JSX@),
        fixed("src/app/page.jsx"@, Some("src/app/app"@), APP_PAGE_JSX@),
        fixed("src/app/client/detector.jsx"@, Some("src/app/client"@), APP_CLIENT_DETECTOR_JSX@),
        fixed("src/app/client/page.jsx"@, None, APP_CLIENT_PAGE_JSX@),
        fixed("src/layout.jsx"@, None, LAYOUT_JSX@),
        fixed("src/index.html"@, None, SRC_INDEX_HTML@),
        fixed("public/index.html"@, Some("public"@), PUBLIC_INDEX_HTML@),
    ]
}

fn file(path: &str, dir: Option<&str>, content: &str) -> (r: GeneratedFile)
    ensures
        file_view(r) == fixed(path@, match dir { Some(d) => Some(d@), None => None }, content@),
{
    GeneratedFile {
        path: String::from_str(path),
        subdirectory: match dir {
            Some(d) => Some(String::from_str(d)),
            None => None,
        },
        content: String::from_str(content),
    }
}

/// The fixed entry files, in the order they are written.
pub fn bootstrap_files() -> (r: Vec<GeneratedFile>)
    ensures
        r@.map_values(|f: GeneratedFile| file_view(f)) == bootstrap_spec(),
{
    let mut v: Vec<GeneratedFile> = Vec::new();
    v.push(file("src/detector.jsx", None, APP_CLIENT_DETECTOR_JSX));
    v.push(file("src/index.jsx", None, INDEX_JSX));
    v.push(file("src/pages/page.jsx", Some("src/pages"), PAGES_PAGE_JSX));
    v.push(file("src/pages/static.jsx", None, PAGES_STATIC_JSX));
    v.push(file("src/app/page.jsx", Some("src/app/app"), APP_PAGE_JSX));
    v.push(file("src/app/client/detector.jsx", Some("src/app/client"), APP_CLIENT_DETECTOR_JSX));
    v.push(file("src/app/client/page.jsx", None, APP_CLIENT_PAGE_JSX));
    v.push(file("src/layout.jsx", None, LAYOUT_JSX));
    v.push(file("src/index.html", None, SRC_INDEX_HTML));
    v.push(file("public/index.html", Some("public"), PUBLIC_INDEX_HTML));
    assert(v@.map_values(|f: GeneratedFile| file_view(f)) =~= bootstrap_spec());
    v
}

/// The entry files followed, where configured, by `package.json`.
pub open spec fn support_files_spec(package_json: Option<Seq<char>>) -> Seq<(Seq<char>, Option<Seq<char>>, Seq<char>)> {
    match package_json {
        Some(v) => bootstrap_spec().push(fixed("package.json"@, None, package_json_text(json_quoted(v)))),
        None => bootstrap_spec(),
    }
}

impl TestAppBuilder {
    /// The files of the app besides its modules: the fixed entry files and,
    /// where configured, `package.json`.
    pub fn support_files(&self) -> (r: Vec<GeneratedFile>)
        ensures
            r@.map_values(|f: GeneratedFile| file_view(f)) == support_files_spec(
                match self.package_json {
                    Some(p) => Some(p.react_version@),
                    None => None,
                },
            ),
    {
        let mut v = bootstrap_files();
        let ghost before = v@;
        match &self.package_json {
            Some(config) => {
                let f = GeneratedFile {
                    path: String::from_str("package.json"),
                    subdirectory: None,
                    content: package_json_content(config),
                };
                v.push(f);
                assert(v@.map_values(|f: GeneratedFile| file_view(f)) =~= before.map_values(
                    |f: GeneratedFile| file_view(f),
                ).push(file_view(f)));
            },
            None => {},
        }
        v
    }
}

} // verus!
