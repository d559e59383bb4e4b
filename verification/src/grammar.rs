//! Source grammars and their names.
use crate::text::{ascii_lower, chars_of, push_char, str_eq, to_ascii_lower};
use vstd::prelude::*;

verus! {

/// A source grammar the highlighter knows.
#[derive(Debug, Clone, Copy, PartialEq, Eq, Structural, Hash)]
pub enum Grammar {
    ObjectScript,
    ObjectScriptRoutine,
    Sql,
    Python,
    Markdown,
    Mdx,
    Xml,
    Json,
    Yaml,
    Css,
    Html,
    JavaScript,
    JsDoc,
    ObjectScriptUdl,
    Regex,
    Toml,
}

/// Whether a character is an ASCII letter or digit.
pub open spec fn is_ascii_alnum(c: char) -> bool {
    ('0' <= c && c <= '9') || ('a' <= c && c <= 'z') || ('A' <= c && c <= 'Z')
}

/// The ASCII letters and digits of `s`, lowercased, in order.
pub open spec fn alnum_lower(s: Seq<char>) -> Seq<char>
    decreases s.len(),
{
    if s.len() == 0 {
        seq![]
    } else if is_ascii_alnum(s.last()) {
        alnum_lower(s.drop_last()).push(ascii_lower(s.last()))
    } else {
        alnum_lower(s.drop_last())
    }
}

/// The grammar named by a normalized name or alias.
pub open spec fn grammar_from_key(k: Seq<char>) -> Option<Grammar> {
    if k == "objectscript"@ || k == "os"@ || k == "playground"@ || k == "objectscriptplayground"@
        || k == "cls"@ {
        Some(Grammar::ObjectScript)
    } else if k == "objectscriptroutine"@ || k == "routine"@ || k == "rtn"@ || k == "mac"@ || k
        == "int"@ || k == "inc"@ {
        Some(Grammar::ObjectScriptRoutine)
    } else if k == "sql"@ || k == "tsql"@ || k == "plsql"@ || k == "mysql"@ || k == "postgres"@
        || k == "postgresql"@ {
        Some(Grammar::Sql)
    } else if k == "python"@ || k == "py"@ {
        Some(Grammar::Python)
    } else if k == "markdown"@ || k == "md"@ || k == "gfm"@ {
        Some(Grammar::Markdown)
    } else if k == "mdx"@ {
        Some(Grammar::Mdx)
    } else if k == "xml"@ {
        Some(Grammar::Xml)
    } else if k == "json"@ {
        Some(Grammar::Json)
    } else if k == "yaml"@ || k == "yml"@ {
        Some(Grammar::Yaml)
    } else if k == "css"@ {
        Some(Grammar::Css)
    } else if k == "html"@ {
        Some(Grammar::Html)
    } else if k == "javascript"@ {
        Some(Grammar::JavaScript)
    } else if k == "jsdoc"@ {
        Some(Grammar::JsDoc)
    } else if k == "objectscriptudl"@ {
        Some(Grammar::ObjectScriptUdl)
    } else if k == "regex"@ {
        Some(Grammar::Regex)
    } else if k == "toml"@ {
        Some(Grammar::Toml)
    } else {
        None
    }
}

/// The canonical name of a grammar.
pub open spec fn grammar_name(g: Grammar) -> Seq<char> {
    match g {
        Grammar::ObjectScript => "objectscript"@,
        Grammar::ObjectScriptRoutine => "objectscript_routine"@,
        Grammar::Sql => "sql"@,
        Grammar::Python => "python"@,
        Grammar::Markdown => "markdown"@,
        Grammar::Mdx => "mdx"@,
        Grammar::Xml => "xml"@,
        Grammar::Json => "json"@,
        Grammar::Yaml => "yaml"@,
        Grammar::Css => "css"@,
        Grammar::Html => "html"@,
        Grammar::JavaScript => "javascript"@,
        Grammar::JsDoc => "jsdoc"@,
        Grammar::ObjectScriptUdl => "objectscript_udl"@,
        Grammar::Regex => "regex"@,
        Grammar::Toml => "toml"@,
    }
}

/// Keeps the ASCII letters and digits of a name, lowercased.
pub fn normalize_language_name(input: &str) -> (r: String)
    ensures
        r@ == alnum_lower(input@),
{
    let v = chars_of(input);
    let mut out = String::new();
    let mut i: usize = 0;
    while i < v.len()
        invariant
            i <= v@.len(),
            v@ == input@,
            out@ == alnum_lower(v@.take(i as int)),
        decreases v@.len() - i,
    {
        let c = v[i];
        assert(v@.take(i + 1).drop_last() == v@.take(i as int));
        if ('0' <= c && c <= '9') || ('a' <= c && c <= 'z') || ('A' <= c && c <= 'Z') {
            push_char(&mut out, to_ascii_lower(c));
        }
        i += 1;
    }
    assert(v@.take(v@.len() as int) == v@);
    out
}

impl Grammar {
    /// Parses a grammar name or alias into a [`Grammar`] value.
    ///
    /// The input is normalized to lowercase alphanumeric characters, so values
    /// such as `"ObjectScript"`, `"objectscript-playground"`, and `"os"` are accepted.
    pub fn from_name(input: &str) -> (r: Option<Grammar>)
        ensures
            r == grammar_from_key(alnum_lower(input@)),
    {
        let key = normalize_language_name(input);
        let k = key.as_str();
        if str_eq(k, "objectscript") || str_eq(k, "os") || str_eq(k, "playground") || str_eq(
            k,
            "objectscriptplayground",
        ) || str_eq(k, "cls") {
            Some(Grammar::ObjectScript)
        } else if str_eq(k, "objectscriptroutine") || str_eq(k, "routine") || str_eq(k, "rtn")
            || str_eq(k, "mac") || str_eq(k, "int") || str_eq(k, "inc") {
            Some(Grammar::ObjectScriptRoutine)
        } else if str_eq(k, "sql") || str_eq(k, "tsql") || str_eq(k, "plsql") || str_eq(k, "mysql")
            || str_eq(k, "postgres") || str_eq(k, "postgresql") {
            Some(Grammar::Sql)
        } else if str_eq(k, "python") || str_eq(k, "py") {
            Some(Grammar::Python)
        } else if str_eq(k, "markdown") || str_eq(k, "md") || str_eq(k, "gfm") {
            Some(Grammar::Markdown)
        } else if str_eq(k, "mdx") {
            Some(Grammar::Mdx)
        } else if str_eq(k, "xml") {
            Some(Grammar::Xml)
        } else if str_eq(k, "json") {
            Some(Grammar::Json)
        } else if str_eq(k, "yaml") || str_eq(k, "yml") {
            Some(Grammar::Yaml)
        } else if str_eq(k, "css") {
            Some(Grammar::Css)
        } else if str_eq(k, "html") {
            Some(Grammar::Html)
        } else if str_eq(k, "javascript") {
            Some(Grammar::JavaScript)
        } else if str_eq(k, "jsdoc") {
            Some(Grammar::JsDoc)
        } else if str_eq(k, "objectscriptudl") {
            Some(Grammar::ObjectScriptUdl)
        } else if str_eq(k, "regex") {
            Some(Grammar::Regex)
        } else if str_eq(k, "toml") {
            Some(Grammar::Toml)
        } else {
            None
        }
    }

    /// Returns the canonical lowercase name for this grammar.
    pub fn canonical_name(self) -> (r: &'static str)
        ensures
            r@ == grammar_name(self),
    {
        match self {
            Grammar::ObjectScript => "objectscript",
            Grammar::ObjectScriptRoutine => "objectscript_routine",
            Grammar::Sql => "sql",
            Grammar::Python => "python",
            Grammar::Markdown => "markdown",
            Grammar::Mdx => "mdx",
            Grammar::Xml => "xml",
            Grammar::Json => "json",
            Grammar::Yaml => "yaml",
            Grammar::Css => "css",
            Grammar::Html => "html",
            Grammar::JavaScript => "javascript",
            Grammar::JsDoc => "jsdoc",
            Grammar::ObjectScriptUdl => "objectscript_udl",
            Grammar::Regex => "regex",
            Grammar::Toml => "toml",
        }
    }

    /// Returns the canonical grammar names accepted by the CLI-facing APIs.
    pub fn supported_names() -> (v: Vec<&'static str>)
        ensures
            v@.len() == 16,
            forall|i: int| 0 <= i < 16 ==> (#[trigger] v@[i])@ == grammar_name(all_grammars()[i]),
    {
        let mut v: Vec<&'static str> = Vec::new();
        let all = Grammar::all();
        let mut i: usize = 0;
        while i < all.len()
            invariant
                i <= all@.len(),
                all@ == all_grammars(),
                v@.len() == i,
                forall|j: int| 0 <= j < i ==> (#[trigger] v@[j])@ == grammar_name(all_grammars()[j]),
            decreases all@.len() - i,
        {
            v.push(all[i].canonical_name());
            i += 1;
        }
        v
    }

    /// Every grammar, in declaration order.
    pub fn all() -> (v: Vec<Grammar>)
        ensures
            v@ == all_grammars(),
    {
        let v = vec![
            Grammar::ObjectScript,
            Grammar::ObjectScriptRoutine,
            Grammar::Sql,
            Grammar::Python,
            Grammar::Markdown,
            Grammar::Mdx,
            Grammar::Xml,
            Grammar::Json,
            Grammar::Yaml,
            Grammar::Css,
            Grammar::Html,
            Grammar::JavaScript,
            Grammar::JsDoc,
            Grammar::ObjectScriptUdl,
            Grammar::Regex,
            Grammar::Toml,
        ];
        assert(v@ =~= all_grammars());
        v
    }
}

/// Every grammar, in declaration order.
pub open spec fn all_grammars() -> Seq<Grammar> {
    seq![
        Grammar::ObjectScript,
        Grammar::ObjectScriptRoutine,
        Grammar::Sql,
        Grammar::Python,
        Grammar::Markdown,
        Grammar::Mdx,
        Grammar::Xml,
        Grammar::Json,
        Grammar::Yaml,
        Grammar::Css,
        Grammar::Html,
        Grammar::JavaScript,
        Grammar::JsDoc,
        Grammar::ObjectScriptUdl,
        Grammar::Regex,
        Grammar::Toml,
    ]
}

} // verus!
