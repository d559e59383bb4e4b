//! The span highlighter: tree-sitter parses and queries, resolved into
//! non-overlapping capture spans.
use crate::grammar::{all_grammars, Grammar};
use crate::resolve::attr_ids_valid;
use crate::spans::{attrs_view, covers_with, lemma_merged_push_covers, lemma_merged_push_keeps_disjoint, lemma_normalized_disjoint_covers, capture_render_priority, capture_specificity, disjoint_ordered, exclude_ranges, excluded, last_id_named, lemma_excluded_ids, lemma_excluded_within, lemma_merged_push_within, lemma_normalized_within, spans_within, lemma_merged_push_ids, remap_state, lemma_normalized_ids, lemma_remap_extends, lemma_sweep_disjoint_ordered, merged_push, normalize_spans, push_merged, remap_attr_ids, render_priority, segment_count, sorted_permutation_of, sweep_all, Attr, HighlightError, HighlightResult, InjectionRegion, Span};
use crate::text::{ascii_lower_seq, chars_of, str_eq, string_from_chars, trim_end_index, trim_start_index, trimmed};
use tree_sitter::StreamingIterator;
use vstd::prelude::*;

verus! {

/// Whether an already trimmed and lowercased flag value turns a feature on.
pub open spec fn flag_on(k: Seq<char>) -> bool {
    k == "1"@ || k == "true"@ || k == "yes"@ || k == "on"@
}

/// Whether an environment flag value turns a feature on: `1`, `true`, `yes`
/// or `on`, ignoring surrounding whitespace and ASCII case.
pub fn env_flag_enabled(value: &str) -> (r: bool)
    ensures
        r == flag_on(ascii_lower_seq(trimmed(value@))),
{
    let v = chars_of(value);
    let i = trim_start_index(&v);
    let j = trim_end_index(&v, i);
    let key = string_from_chars(&v, i, j, true);
    let k = key.as_str();
    str_eq(k, "1") || str_eq(k, "true") || str_eq(k, "yes") || str_eq(k, "on")
}

/// A tree-sitter grammar.
#[verifier::external_type_specification]
#[verifier::external_body]
pub struct ExLanguage(tree_sitter::Language);

/// A tree-sitter parser.
#[verifier::external_type_specification]
#[verifier::external_body]
pub struct ExParser(tree_sitter::Parser);

/// A compiled tree-sitter query.
#[verifier::external_type_specification]
#[verifier::external_body]
pub struct ExQuery(tree_sitter::Query);

/// The language and queries exported by `tree_sitter_objectscript_playground`: the ObjectScript class grammar with its highlight and injection queries.
///
/// Nothing is stated of the result: it is constant data of the crate.
#[verifier::external_body]
fn objectscript_playground_grammar() -> (tree_sitter::Language, &'static str, Option<&'static str>) {
    (tree_sitter_objectscript_playground::LANGUAGE_OBJECTSCRIPT.into(), tree_sitter_objectscript_playground::HIGHLIGHTS_QUERY, Some(tree_sitter_objectscript_playground::INJECTIONS_QUERY))
}

/// The language and queries exported by `tree_sitter_objectscript_routine`: the ObjectScript routine grammar with its highlight and injection queries.
///
/// Nothing is stated of the result: it is constant data of the crate.
#[verifier::external_body]
fn objectscript_routine_grammar() -> (tree_sitter::Language, &'static str, Option<&'static str>) {
    (tree_sitter_objectscript_routine::LANGUAGE_OBJECTSCRIPT_ROUTINE.into(), tree_sitter_objectscript_routine::HIGHLIGHTS_QUERY, Some(tree_sitter_objectscript_routine::INJECTIONS_QUERY))
}

/// The language and queries exported by `tree_sitter_objectscript`: the ObjectScript UDL grammar with its highlight and injection queries.
///
/// Nothing is stated of the result: it is constant data of the crate.
#[verifier::external_body]
fn objectscript_udl_grammar() -> (tree_sitter::Language, &'static str, Option<&'static str>) {
    (tree_sitter_objectscript::LANGUAGE_OBJECTSCRIPT_UDL.into(), tree_sitter_objectscript::HIGHLIGHTS_QUERY, Some(tree_sitter_objectscript::INJECTIONS_QUERY))
}

/// The language and queries exported by `tree_sitter_sequel`: the SQL grammar and its highlight query (the crate has no injection query).
///
/// Nothing is stated of the result: it is constant data of the crate.
#[verifier::external_body]
fn sql_grammar() -> (tree_sitter::Language, &'static str, Option<&'static str>) {
    (tree_sitter_sequel::LANGUAGE.into(), tree_sitter_sequel::HIGHLIGHTS_QUERY, None)
}

/// The language and queries exported by `tree_sitter_python`: the Python grammar and its highlight query (the crate has no injection query).
///
/// Nothing is stated of the result: it is constant data of the crate.
#[verifier::external_body]
fn python_grammar() -> (tree_sitter::Language, &'static str, Option<&'static str>) {
    (tree_sitter_python::LANGUAGE.into(), tree_sitter_python::HIGHLIGHTS_QUERY, None)
}

/// The language and queries exported by `tree_sitter_md`: the Markdown block grammar with its highlight and injection queries.
///
/// Nothing is stated of the result: it is constant data of the crate.
#[verifier::external_body]
fn markdown_grammar() -> (tree_sitter::Language, &'static str, Option<&'static str>) {
    (tree_sitter_md::LANGUAGE.into(), tree_sitter_md::HIGHLIGHT_QUERY_BLOCK, Some(tree_sitter_md::INJECTION_QUERY_BLOCK))
}

/// The language and queries exported by `tree_sitter_json`: the JSON grammar and its highlight query (the crate has no injection query).
///
/// Nothing is stated of the result: it is constant data of the crate.
#[verifier::external_body]
fn json_grammar() -> (tree_sitter::Language, &'static str, Option<&'static str>) {
    (tree_sitter_json::LANGUAGE.into(), tree_sitter_json::HIGHLIGHTS_QUERY, None)
}

/// The language and queries exported by `tree_sitter_yaml`: the YAML grammar and its highlight query (the crate has no injection query).
///
/// Nothing is stated of the result: it is constant data of the crate.
#[verifier::external_body]
fn yaml_grammar() -> (tree_sitter::Language, &'static str, Option<&'static str>) {
    (tree_sitter_yaml::LANGUAGE.into(), tree_sitter_yaml::HIGHLIGHTS_QUERY, None)
}

/// The language and queries exported by `tree_sitter_xml`: the XML grammar and its highlight query (the crate has no XML injection query).
///
/// Nothing is stated of the result: it is constant data of the crate.
#[verifier::external_body]
fn xml_grammar() -> (tree_sitter::Language, &'static str, Option<&'static str>) {
    (tree_sitter_xml::LANGUAGE_XML.into(), tree_sitter_xml::XML_HIGHLIGHT_QUERY, None)
}

/// The language and queries exported by `tree_sitter_css`: the CSS grammar and its highlight query (the crate has no injection query).
///
/// Nothing is stated of the result: it is constant data of the crate.
#[verifier::external_body]
fn css_grammar() -> (tree_sitter::Language, &'static str, Option<&'static str>) {
    (tree_sitter_css::LANGUAGE.into(), tree_sitter_css::HIGHLIGHTS_QUERY, None)
}

/// The language and queries exported by `tree_sitter_html`: the HTML grammar with its highlight and injection queries.
///
/// Nothing is stated of the result: it is constant data of the crate.
#[verifier::external_body]
fn html_grammar() -> (tree_sitter::Language, &'static str, Option<&'static str>) {
    (tree_sitter_html::LANGUAGE.into(), tree_sitter_html::HIGHLIGHTS_QUERY, Some(tree_sitter_html::INJECTIONS_QUERY))
}

/// The language and queries exported by `tree_sitter_javascript`: the JavaScript grammar with its highlight and injection queries.
///
/// Nothing is stated of the result: it is constant data of the crate.
#[verifier::external_body]
fn javascript_grammar() -> (tree_sitter::Language, &'static str, Option<&'static str>) {
    (tree_sitter_javascript::LANGUAGE.into(), tree_sitter_javascript::HIGHLIGHT_QUERY, Some(tree_sitter_javascript::INJECTIONS_QUERY))
}

/// The language and queries exported by `tree_sitter_jsdoc`: the JSDoc grammar and its highlight query (the crate has no injection query).
///
/// Nothing is stated of the result: it is constant data of the crate.
#[verifier::external_body]
fn jsdoc_grammar() -> (tree_sitter::Language, &'static str, Option<&'static str>) {
    (tree_sitter_jsdoc::LANGUAGE.into(), tree_sitter_jsdoc::HIGHLIGHTS_QUERY, None)
}

/// The language and queries exported by `tree_sitter_regex`: the regex grammar and its highlight query (the crate has no injection query).
///
/// Nothing is stated of the result: it is constant data of the crate.
#[verifier::external_body]
fn regex_grammar() -> (tree_sitter::Language, &'static str, Option<&'static str>) {
    (tree_sitter_regex::LANGUAGE.into(), tree_sitter_regex::HIGHLIGHTS_QUERY, None)
}

/// The language and queries exported by `tree_sitter_toml_ng`: the TOML grammar and its highlight query (the crate has no injection query).
///
/// Nothing is stated of the result: it is constant data of the crate.
#[verifier::external_body]
fn toml_grammar() -> (tree_sitter::Language, &'static str, Option<&'static str>) {
    (tree_sitter_toml_ng::LANGUAGE.into(), tree_sitter_toml_ng::HIGHLIGHTS_QUERY, None)
}

/// Injection query that highlights ObjectScript embedded in XML `<Implementation>` elements.
pub const XML_IMPLEMENTATION_INJECTIONS_QUERY: &'static str = "
(
  element
    (STag (Name) @_start_tag)
    (content (CDSect (CData) @injection.content))
    (ETag (Name) @_end_tag)
  (#eq? @_start_tag \"Implementation\")
  (#eq? @_end_tag \"Implementation\")
  (#set! injection.language \"objectscript\")
)
(
  element
    (STag (Name) @_start_tag)
    (content (CharData) @injection.content)
    (ETag (Name) @_end_tag)
  (#eq? @_start_tag \"Implementation\")
  (#eq? @_end_tag \"Implementation\")
  (#set! injection.language \"objectscript\")
)
";

/// A grammar's language with its highlight query and its non-empty
/// injection query, if any; made only by `grammar_source`.
pub struct GrammarSource {
    grammar: Grammar,
    language: tree_sitter::Language,
    highlights: &'static str,
    injections: Option<&'static str>,
}

/// The grammar whose language and queries a grammar is highlighted with:
/// MDX is highlighted with the SQL grammar, every other grammar with its own.
pub open spec fn grammar_data(g: Grammar) -> Grammar {
    if g == Grammar::Mdx {
        Grammar::Sql
    } else {
        g
    }
}

/// The language, highlight query and injection query (if any) of a grammar.
///
/// MDX takes the SQL grammar's language and queries, exactly as SQL does
/// (see `grammar_data`); XML takes the library's own injection query. An
/// empty injection query counts as none.
fn grammar_source(grammar: Grammar) -> (r: GrammarSource)
    ensures
        r.grammar == grammar,
        grammar == Grammar::Xml ==> r.injections == Some(XML_IMPLEMENTATION_INJECTIONS_QUERY),
{
    let (language, highlights, injections) = match grammar {
        Grammar::ObjectScript => objectscript_playground_grammar(),
        Grammar::ObjectScriptRoutine => objectscript_routine_grammar(),
        Grammar::Sql => sql_grammar(),
        Grammar::Python => python_grammar(),
        Grammar::Markdown => markdown_grammar(),
        Grammar::Mdx => sql_grammar(),
        Grammar::Xml => {
            let (language, highlights, _) = xml_grammar();
            return GrammarSource { grammar, language, highlights, injections: Some(XML_IMPLEMENTATION_INJECTIONS_QUERY) };
        },
        Grammar::Json => json_grammar(),
        Grammar::Yaml => yaml_grammar(),
        Grammar::Css => css_grammar(),
        Grammar::Html => html_grammar(),
        Grammar::JavaScript => javascript_grammar(),
        Grammar::JsDoc => jsdoc_grammar(),
        Grammar::ObjectScriptUdl => objectscript_udl_grammar(),
        Grammar::Regex => regex_grammar(),
        Grammar::Toml => toml_grammar(),
    };
    let injections = match injections {
        Some(text) => if text.len() == 0 {
            None
        } else {
            Some(text)
        },
        None => None,
    };
    GrammarSource { grammar, language, highlights, injections }
}

/// Whether a grammar's language is accepted by a parser and its highlight and
/// injection queries compile for it.
pub uninterp spec fn grammar_compiles(g: Grammar) -> bool;

/// Creates a parser for the language of `source` (`Parser::new`,
/// `Parser::set_language`) and compiles its highlight query and its
/// injection query, if any (`Query::new`), stopping at the first error.
///
/// Every `GrammarSource` is made by `grammar_source` from its grammar, which
/// takes the language and queries of `grammar_data(source.grammar)`, so
/// whether this succeeds is a function of that grammar; which grammars
/// compile is not stated (the language's ABI version and the queries' node
/// types decide it).
#[verifier::external_body]
fn compile_grammar(source: &GrammarSource) -> (r: Result<(tree_sitter::Parser, tree_sitter::Query, Option<tree_sitter::Query>), HighlightError>)
    ensures
        r is Ok <==> grammar_compiles(grammar_data(source.grammar)),
        r matches Err(e) ==> !(e is Parse),
        r matches Ok(t) ==> (t.2 is Some <==> source.injections is Some),
{
    let mut parser = tree_sitter::Parser::new();
    parser.set_language(&source.language).map_err(HighlightError::Language)?;
    let highlights = tree_sitter::Query::new(&source.language, source.highlights).map_err(HighlightError::Query)?;
    let injections = match source.injections {
        Some(text) => Some(tree_sitter::Query::new(&source.language, text).map_err(HighlightError::Query)?),
        None => None,
    };
    Ok((parser, highlights, injections))
}

/// The capture names of a query, by capture index (`Query::capture_names`).
///
/// Nothing is stated of the result: a query is opaque to the library.
#[verifier::external_body]
fn query_capture_names(query: &tree_sitter::Query) -> Vec<String> {
    query.capture_names().iter().map(|name| name.to_string()).collect()
}

/// The captures that a grammar's highlight query finds in a parse of
/// `source`, in match order, as `(capture index, start byte, end byte,
/// pattern index)`.
pub uninterp spec fn highlight_captures_of(g: Grammar, source: Seq<u8>) -> Seq<(u32, usize, usize, usize)>;

/// The capture names of a grammar's highlight query, by capture index.
pub uninterp spec fn highlight_capture_names_of(g: Grammar) -> Seq<Seq<char>>;

/// The capture names of the highlight query of `config`, by capture index
/// (`Query::capture_names`).
///
/// Every configuration is made by `build_highlight_config`, whose query is
/// compiled from the query text of `grammar_data(config.grammar)` for that
/// grammar's language, so the names are a function of that grammar.
#[verifier::external_body]
fn config_capture_names(config: &HighlightConfig) -> (r: Vec<String>)
    ensures
        string_views(r@) == highlight_capture_names_of(grammar_data(config.grammar)),
{
    config.highlight_query.capture_names().iter().map(|name| name.to_string()).collect()
}

/// Parses `source` with the parser of `config` and runs its highlight query
/// over the tree, returning each capture of each match in match order as
/// `(capture index, start byte, end byte, pattern index)` (`Parser::parse`,
/// `QueryCursor::matches`).
///
/// Every configuration is made by `build_highlight_config`: its parser has
/// the grammar's language set, so `Parser::parse` gives a tree (it returns
/// `None` only for a parser without a language), and its query is compiled
/// from the query text of `grammar_data` of the grammar, so the captures are
/// a function of that grammar and the source. Each capture is a node of the tree parsed from
/// `source`, so its byte range lies within `source`.
#[verifier::external_body]
fn run_highlight_query(config: &mut HighlightConfig, source: &[u8]) -> (r: Option<Vec<(u32, usize, usize, usize)>>)
    ensures
        final(config).grammar == old(config).grammar,
        final(config).highlight_capture_names == old(config).highlight_capture_names,
        final(config).injection_query is None <==> old(config).injection_query is None,
        final(config).injection_content_capture_index == old(config).injection_content_capture_index,
        final(config).injection_language_capture_index == old(config).injection_language_capture_index,
        r matches Some(v) && v@ == highlight_captures_of(grammar_data(old(config).grammar), source@),
        r matches Some(v) ==> forall|i: int| 0 <= i < v@.len() ==> (#[trigger] v@[i]).1 <= v@[i].2 <= source@.len(),
{
    let tree = config.parser.parse(source, None)?;
    let mut cursor = tree_sitter::QueryCursor::new();
    let mut matches = cursor.matches(&config.highlight_query, tree.root_node(), source);
    let mut out = Vec::new();
    while let Some(mat) = matches.next() {
        for capture in mat.captures() {
            out.push((capture.index, capture.node.start_byte(), capture.node.end_byte(), mat.pattern_index));
        }
    }
    Some(out)
}

/// A query match: its captures as `(capture index, start byte, end byte)`
/// and the property settings of its pattern as `(key, value)`.
pub type RawMatch = (Vec<(u32, usize, usize)>, Vec<(String, Option<String>)>);

/// The matches that a grammar's injection query finds in a parse of
/// `source`, in match order, each as its captures `(capture index, start
/// byte, end byte)` and the property settings `(key, value)` of its pattern.
pub uninterp spec fn injection_matches_of(g: Grammar, source: Seq<u8>) -> Seq<
    (Seq<(u32, usize, usize)>, Seq<(Seq<char>, Option<Seq<char>>)>),
>;

/// The views of raw matches.
pub open spec fn raw_matches_view(ms: Seq<RawMatch>) -> Seq<(Seq<(u32, usize, usize)>, Seq<(Seq<char>, Option<Seq<char>>)>)> {
    ms.map_values(|m: RawMatch| raw_match_view(m))
}

/// Parses `source` with the parser of `config` and runs its injection query
/// over the tree, returning each match (`Parser::parse`,
/// `QueryCursor::matches`, `Query::property_settings`).
///
/// Every configuration is made by `build_highlight_config`: its parser has
/// the grammar's language set, so `Parser::parse` gives a tree, and its
/// injection query is compiled from the injection query text of
/// `grammar_data` of the grammar, so the matches are a function of that
/// grammar and the source.
#[verifier::external_body]
fn run_injection_query(config: &mut HighlightConfig, source: &[u8]) -> (r: Option<Vec<RawMatch>>)
    requires
        old(config).injection_query is Some,
    ensures
        final(config).grammar == old(config).grammar,
        final(config).highlight_capture_names == old(config).highlight_capture_names,
        final(config).injection_query is Some,
        final(config).injection_content_capture_index == old(config).injection_content_capture_index,
        final(config).injection_language_capture_index == old(config).injection_language_capture_index,
        r matches Some(v) && raw_matches_view(v@) == injection_matches_of(grammar_data(old(config).grammar), source@),
{
    let query = config.injection_query.as_ref().unwrap();
    let tree = config.parser.parse(source, None)?;
    let mut cursor = tree_sitter::QueryCursor::new();
    let mut matches = cursor.matches(query, tree.root_node(), source);
    let mut out = Vec::new();
    while let Some(mat) = matches.next() {
        let caps = mat.captures().iter().map(|c| (c.index, c.node.start_byte(), c.node.end_byte())).collect();
        let props = query.property_settings(mat.pattern_index).iter().map(|p| (p.key.to_string(), p.value.as_deref().map(String::from))).collect();
        out.push((caps, props));
    }
    Some(out)
}

/// Decodes bytes that are valid UTF-8 (`std::str::from_utf8`).
///
/// The standard library documents that the call fails exactly when the bytes
/// are not valid UTF-8.
#[verifier::external_body]
fn utf8_text(bytes: &[u8]) -> (r: Option<String>)
    ensures
        r is Some <==> vstd::utf8::valid_utf8(bytes@),
        r matches Some(t) ==> t@ == vstd::utf8::decode_utf8(bytes@),
{
    std::str::from_utf8(bytes).ok().map(|t| t.to_string())
}

/// Injection query that highlights ObjectScript embedded in XML `<Implementation>` elements.
/// The position of a grammar among all grammars.
pub fn grammar_index(g: Grammar) -> (i: usize)
    ensures
        i < all_grammars().len(),
        all_grammars()[i as int] == g,
{
    match g {
        Grammar::ObjectScript => 0,
        Grammar::ObjectScriptRoutine => 1,
        Grammar::Sql => 2,
        Grammar::Python => 3,
        Grammar::Markdown => 4,
        Grammar::Mdx => 5,
        Grammar::Xml => 6,
        Grammar::Json => 7,
        Grammar::Yaml => 8,
        Grammar::Css => 9,
        Grammar::Html => 10,
        Grammar::JavaScript => 11,
        Grammar::JsDoc => 12,
        Grammar::ObjectScriptUdl => 13,
        Grammar::Regex => 14,
        Grammar::Toml => 15,
    }
}

/// The index of the last capture named `name`, if any.
pub open spec fn last_index_named(names: Seq<Seq<char>>, name: Seq<char>) -> Option<int>
    decreases names.len(),
{
    if names.len() == 0 {
        None
    } else if names.last() == name {
        Some(names.len() - 1)
    } else {
        last_index_named(names.drop_last(), name)
    }
}

/// The views of a sequence of strings.
pub open spec fn string_views(v: Seq<String>) -> Seq<Seq<char>> {
    v.map_values(|s: String| s@)
}

/// Finds the last capture named `name`.
fn last_index_of(names: &Vec<String>, name: &str) -> (r: Option<u32>)
    ensures
        match last_index_named(string_views(names@), name@) {
            Some(i) => if i <= u32::MAX {
                r == Some(i as u32)
            } else {
                r is None
            },
            None => r is None,
        },
{
    let mut i: usize = names.len();
    assert(names@.take(i as int) == names@);
    while i > 0
        invariant
            i <= names@.len(),
            last_index_named(string_views(names@), name@) == last_index_named(string_views(names@.take(i as int)), name@),
        decreases i,
    {
        assert(string_views(names@.take(i as int)).drop_last() == string_views(names@.take(i - 1)));
        if crate::text::text_eq(&names[i - 1], name) {
            if i - 1 > 4294967295usize {
                return None;
            }
            return Some((i - 1) as u32);
        }
        i -= 1;
    }
    assert(string_views(names@.take(0)) =~= Seq::<Seq<char>>::empty());
    None
}

/// The positions of the last capture named `injection.content` and of the
/// last named `injection.language` among capture names, when they fit a `u32`.
pub open spec fn injection_indices(names: Seq<Seq<char>>) -> (Option<u32>, Option<u32>) {
    (
        match last_index_named(names, "injection.content"@) {
            Some(i) => if i <= u32::MAX { Some(i as u32) } else { None },
            None => None,
        },
        match last_index_named(names, "injection.language"@) {
            Some(i) => if i <= u32::MAX { Some(i as u32) } else { None },
            None => None,
        },
    )
}

/// Locates the `injection.content` and `injection.language` captures among
/// the capture names of an injection query.
pub fn injection_capture_indices_in(names: &Vec<String>) -> (r: (Option<u32>, Option<u32>))
    ensures
        r == injection_indices(string_views(names@)),
{
    (last_index_of(names, "injection.content"), last_index_of(names, "injection.language"))
}

/// Locates `injection.content` and `injection.language` captures in a query.
///
/// The result is [`injection_indices`] of the capture names that the query
/// reports; which names those are is up to tree-sitter.
pub fn injection_capture_indices(query: &tree_sitter::Query) -> (r: (Option<u32>, Option<u32>))
    ensures
        exists|names: Seq<Seq<char>>| r == #[trigger] injection_indices(names),
{
    let names = query_capture_names(query);
    injection_capture_indices_in(&names)
}

/// A grammar's compiled parser and queries.
pub struct HighlightConfig {
    grammar: Grammar,
    parser: tree_sitter::Parser,
    highlight_query: tree_sitter::Query,
    highlight_capture_names: Vec<String>,
    injection_query: Option<tree_sitter::Query>,
    injection_content_capture_index: Option<u32>,
    injection_language_capture_index: Option<u32>,
}

impl HighlightConfig {
    /// The configuration holds its grammar's highlight capture names.
    pub closed spec fn names_ok(&self) -> bool {
        string_views(self.highlight_capture_names@) == highlight_capture_names_of(grammar_data(self.grammar))
    }
}

/// Builds the parser and queries of a grammar.
///
/// # Errors
///
/// Returns an error when the parser rejects the language or a query does not compile.
fn build_highlight_config(grammar: Grammar) -> (r: Result<HighlightConfig, HighlightError>)
    ensures
        r is Ok <==> grammar_compiles(grammar_data(grammar)),
        r matches Ok(c) ==> c.grammar == grammar && c.names_ok(),
        r matches Err(e) ==> !(e is Parse),
{
    let source = grammar_source(grammar);
    let (parser, highlight_query, injection_query) = match compile_grammar(&source) {
        Ok(t) => t,
        Err(e) => {
            return Err(e);
        },
    };
    let (content, lang) = match &injection_query {
        Some(q) => injection_capture_indices(q),
        None => (None, None),
    };
    let mut config = HighlightConfig {
        grammar,
        parser,
        highlight_query,
        highlight_capture_names: Vec::new(),
        injection_query,
        injection_content_capture_index: content,
        injection_language_capture_index: lang,
    };
    config.highlight_capture_names = config_capture_names(&config);
    Ok(config)
}

/// Whether the names of an attribute table are pairwise distinct and each
/// attribute's id is its position.
pub open spec fn attr_table_ok(attrs: Seq<(usize, Seq<char>)>) -> bool {
    &&& forall|i: int| 0 <= i < attrs.len() ==> (#[trigger] attrs[i]).0 == i
    &&& forall|i: int, j: int| 0 <= i < j < attrs.len() ==> (#[trigger] attrs[i]).1 != (#[trigger] attrs[j]).1
}

/// The position of the attribute named `name`, if any.
pub open spec fn id_named(attrs: Seq<(usize, Seq<char>)>, name: Seq<char>) -> Option<usize>
    decreases attrs.len(),
{
    if attrs.len() == 0 {
        None
    } else if attrs.last().1 == name {
        Some(attrs.last().0)
    } else {
        id_named(attrs.drop_last(), name)
    }
}

/// Looks up the id of the attribute named `name`.
fn attr_id_of(attrs: &Vec<Attr>, name: &str) -> (r: Option<usize>)
    ensures
        r == id_named(attrs_view(attrs@), name@),
{
    let mut i: usize = attrs.len();
    assert(attrs@.take(i as int) == attrs@);
    while i > 0
        invariant
            i <= attrs@.len(),
            id_named(attrs_view(attrs@), name@) == id_named(attrs_view(attrs@.take(i as int)), name@),
        decreases i,
    {
        assert(attrs_view(attrs@.take(i as int)).drop_last() == attrs_view(attrs@.take(i - 1)));
        if crate::text::text_eq(&attrs[i - 1].capture_name, name) {
            return Some(attrs[i - 1].id);
        }
        i -= 1;
    }
    assert(attrs_view(attrs@.take(0)) =~= Seq::<(usize, Seq<char>)>::empty());
    None
}

/// A name missing from a table is not found in it.
proof fn lemma_id_named_absent(attrs: Seq<(usize, Seq<char>)>, name: Seq<char>)
    requires
        forall|i: int| 0 <= i < attrs.len() ==> (#[trigger] attrs[i]).1 != name,
    ensures
        id_named(attrs, name) is None,
    decreases attrs.len(),
{
    if attrs.len() > 0 {
        lemma_id_named_absent(attrs.drop_last(), name);
    }
}

/// Highlights source buffers with tree-sitter grammars and reports capture spans.
pub struct SpanHighlighter {
    configs: Vec<HighlightConfig>,
    attrs: Vec<Attr>,
    timing_logs_enabled: bool,
}

/// The attribute table after the first `j` of `names` are registered into
/// `table`: a name missing from the table is appended with its position as
/// id, while the table has room.
pub open spec fn register_names(table: Seq<(usize, Seq<char>)>, names: Seq<Seq<char>>, j: int) -> Seq<(usize, Seq<char>)>
    decreases j,
{
    if j <= 0 {
        table
    } else {
        let t = register_names(table, names, j - 1);
        if id_named(t, names[j - 1]) is None && t.len() < usize::MAX {
            t.push((t.len() as usize, names[j - 1]))
        } else {
            t
        }
    }
}

/// The attribute table made of the highlight capture names of the first `k`
/// grammars, in grammar order.
pub open spec fn registered_table(k: int) -> Seq<(usize, Seq<char>)>
    decreases k,
{
    if k <= 0 {
        seq![]
    } else {
        let names = highlight_capture_names_of(grammar_data(all_grammars()[k - 1]));
        register_names(registered_table(k - 1), names, names.len() as int)
    }
}

/// Whether every grammar's language is accepted and its queries compile.
pub open spec fn all_grammars_compile() -> bool {
    forall|i: int| 0 <= i < all_grammars().len() ==> grammar_compiles(grammar_data(#[trigger] all_grammars()[i]))
}

impl SpanHighlighter {
    /// The highlighter holds one configuration per grammar, in grammar order,
    /// and an attribute table of distinct names whose ids are positions.
    pub closed spec fn well_formed(&self) -> bool {
        &&& self.configs@.len() == all_grammars().len()
        &&& forall|i: int| 0 <= i < self.configs@.len() ==> (#[trigger] self.configs@[i]).grammar == all_grammars()[i]
        &&& forall|i: int| 0 <= i < self.configs@.len() ==> (#[trigger] self.configs@[i]).names_ok()
        &&& attr_table_ok(attrs_view(self.attrs@))
    }

    /// The content and language capture indices of a grammar's injection
    /// query, when the grammar has one.
    pub closed spec fn injection_setup(&self, g: Grammar) -> Option<(Option<u32>, Option<u32>)> {
        let c = self.configs@[grammar_rank(g)];
        if c.injection_query is Some {
            Some((c.injection_content_capture_index, c.injection_language_capture_index))
        } else {
            None
        }
    }

    /// The capture attributes every highlight result starts from.
    pub closed spec fn attr_table(&self) -> Seq<(usize, Seq<char>)> {
        attrs_view(self.attrs@)
    }

    /// Whether highlighting should be timed and logged by the caller.
    pub closed spec fn logs_timing(&self) -> bool {
        self.timing_logs_enabled
    }

    /// Creates a highlighter configured for all supported grammars and injections.
    ///
    /// Queries and parsers are compiled once and then reused across highlight calls.
    /// Timing logs start disabled.
    ///
    /// # Errors
    ///
    /// Returns an error if any grammar query cannot be compiled or if parser
    /// language configuration fails.
    pub fn new() -> (r: Result<SpanHighlighter, HighlightError>)
        ensures
            r is Ok <==> all_grammars_compile(),
            r matches Ok(h) ==> h.well_formed() && !h.logs_timing() && attr_table_ok(h.attr_table())
                && h.attr_table() == registered_table(all_grammars().len() as int),
            r matches Err(e) ==> !(e is Parse),
    {
        let all = Grammar::all();
        let mut configs: Vec<HighlightConfig> = Vec::new();
        let mut attrs: Vec<Attr> = Vec::new();
        let mut k: usize = 0;
        while k < all.len()
            invariant
                k <= all@.len(),
                all@ == all_grammars(),
                configs@.len() == k,
                forall|i: int| 0 <= i < k ==> (#[trigger] configs@[i]).grammar == all_grammars()[i],
                forall|i: int| 0 <= i < k ==> (#[trigger] configs@[i]).names_ok(),
                forall|i: int| 0 <= i < k ==> grammar_compiles(grammar_data(#[trigger] all_grammars()[i])),
                attr_table_ok(attrs_view(attrs@)),
                attrs_view(attrs@) == registered_table(k as int),
            decreases all@.len() - k,
        {
            let config = match build_highlight_config(all[k]) {
                Ok(c) => c,
                Err(e) => {
                    return Err(e);
                },
            };
            let names = &config.highlight_capture_names;
            let ghost before_all = attrs_view(attrs@);
            let mut j: usize = 0;
            while j < names.len()
                invariant
                    j <= names@.len(),
                    attr_table_ok(attrs_view(attrs@)),
                    attrs_view(attrs@) == register_names(before_all, string_views(names@), j as int),
                decreases names@.len() - j,
            {
                if attr_id_of(&attrs, names[j].as_str()).is_none() && attrs.len() < usize::MAX {
                    let id = attrs.len();
                    let ghost before = attrs_view(attrs@);
                    proof {
                        assert forall|i: int| 0 <= i < before.len() implies (#[trigger] before[i]).1 != names@[j as int]@ by {
                            if before[i].1 == names@[j as int]@ {
                                assert(attr_table_ok(before));
                                lemma_id_named_present(before, i, names@[j as int]@);
                            }
                        }
                    }
                    attrs.push(Attr { id, capture_name: names[j].clone() });
                    assert(attrs_view(attrs@) == before.push((id, names@[j as int]@)));
                }
                j += 1;
            }
            proof {
                assert(string_views(names@) == highlight_capture_names_of(grammar_data(all_grammars()[k as int])));
                assert(registered_table(k + 1) == register_names(
                    registered_table(k as int),
                    string_views(names@),
                    string_views(names@).len() as int,
                ));
            }
            configs.push(config);
            k += 1;
        }
        Ok(SpanHighlighter { configs, attrs, timing_logs_enabled: false })
    }

    /// Returns whether this highlighter asks for per-highlight timing logs.
    pub fn timing_logs_enabled(&self) -> (b: bool)
        ensures
            b == self.logs_timing(),
    {
        self.timing_logs_enabled
    }

    /// Enables or disables per-highlight timing logs.
    pub fn set_timing_logs_enabled(&mut self, enabled: bool)
        ensures
            final(self).logs_timing() == enabled,
            final(self).attr_table() == old(self).attr_table(),
            old(self).well_formed() ==> final(self).well_formed(),
    {
        self.timing_logs_enabled = enabled;
    }

    /// Returns this highlighter with timing logs enabled or disabled.
    pub fn with_timing_logs_enabled(self, enabled: bool) -> (h: Self)
        ensures
            h.logs_timing() == enabled,
            h.attr_table() == self.attr_table(),
            self.well_formed() ==> h.well_formed(),
    {
        let mut h = self;
        h.set_timing_logs_enabled(enabled);
        h
    }
}

/// A name present in a table of distinct names is found in it.
proof fn lemma_id_named_present(attrs: Seq<(usize, Seq<char>)>, i: int, name: Seq<char>)
    requires
        attr_table_ok(attrs),
        0 <= i < attrs.len(),
        attrs[i].1 == name,
    ensures
        id_named(attrs, name) is Some,
    decreases attrs.len(),
{
    if attrs.last().1 != name {
        assert(i < attrs.len() - 1);
        let d = attrs.drop_last();
        assert(attr_table_ok(d)) by {
            assert forall|a: int| 0 <= a < d.len() implies (#[trigger] d[a]).0 == a by {
                assert(d[a] == attrs[a]);
            }
            assert forall|a: int, b: int| 0 <= a < b < d.len() implies (#[trigger] d[a]).1 != (#[trigger] d[b]).1 by {
                assert(d[a] == attrs[a] && d[b] == attrs[b]);
            }
        }
        assert(d[i] == attrs[i]);
        lemma_id_named_present(d, i, name);
    }
}

/// A capture that may color a byte range, with what ranks it against others.
#[derive(Debug, Clone, Copy, PartialEq, Eq, Structural)]
pub struct CaptureCandidate {
    pub attr_id: usize,
    pub start_byte: usize,
    pub end_byte: usize,
    pub render_priority: usize,
    pub specificity: usize,
    pub pattern_index: usize,
    pub order: usize,
}

/// The candidates from the first `k` raw captures: captures with an empty
/// range, an unknown capture index or a name missing from the attribute table
/// are skipped; the others are numbered in order.
pub open spec fn candidates_upto(
    raw: Seq<(u32, usize, usize, usize)>,
    names: Seq<Seq<char>>,
    attrs: Seq<(usize, Seq<char>)>,
    k: int,
) -> Seq<CaptureCandidate>
    decreases k,
{
    if k <= 0 {
        seq![]
    } else {
        let prev = candidates_upto(raw, names, attrs, k - 1);
        let (ci, s, e, pat) = raw[k - 1];
        if s >= e || ci >= names.len() {
            prev
        } else {
            let name = names[ci as int];
            match id_named(attrs, name) {
                None => prev,
                Some(id) => prev.push(
                    CaptureCandidate {
                        attr_id: id,
                        start_byte: s,
                        end_byte: e,
                        render_priority: render_priority(name) as usize,
                        specificity: segment_count(name) as usize,
                        pattern_index: pat,
                        order: prev.len() as usize,
                    },
                ),
            }
        }
    }
}

/// Builds ranked capture candidates from raw query captures.
pub fn candidates_from_captures(
    raw: &Vec<(u32, usize, usize, usize)>,
    names: &Vec<String>,
    attrs: &Vec<Attr>,
) -> (out: Vec<CaptureCandidate>)
    ensures
        out@ == candidates_upto(raw@, string_views(names@), attrs_view(attrs@), raw@.len() as int),
{
    let mut out: Vec<CaptureCandidate> = Vec::new();
    let mut k: usize = 0;
    while k < raw.len()
        invariant
            k <= raw@.len(),
            out@ == candidates_upto(raw@, string_views(names@), attrs_view(attrs@), k as int),
            out@.len() <= k,
        decreases raw@.len() - k,
    {
        let (ci, start_byte, end_byte, pattern_index) = raw[k];
        if start_byte < end_byte && (ci as usize) < names.len() {
            let name = names[ci as usize].as_str();
            match attr_id_of(attrs, name) {
                Some(attr_id) => {
                    let order = out.len();
                    out.push(
                        CaptureCandidate {
                            attr_id,
                            start_byte,
                            end_byte,
                            render_priority: capture_render_priority(name),
                            specificity: capture_specificity(name),
                            pattern_index,
                            order,
                        },
                    );
                },
                None => {},
            }
        }
        k += 1;
    }
    out
}

/// Whether candidate `a` ranks at least as high as `b`: higher priority first,
/// then shorter range, higher specificity, later pattern, later order.
pub open spec fn ranks_at_least(a: CaptureCandidate, b: CaptureCandidate) -> bool {
    let la = a.end_byte - a.start_byte;
    let lb = b.end_byte - b.start_byte;
    a.render_priority > b.render_priority || (a.render_priority == b.render_priority && (la < lb
        || (la == lb && (a.specificity > b.specificity || (a.specificity == b.specificity && (
    a.pattern_index > b.pattern_index || (a.pattern_index == b.pattern_index && a.order
        >= b.order)))))))
}

/// Whether a candidate covers byte `b`.
pub open spec fn covers(c: CaptureCandidate, b: int) -> bool {
    c.start_byte <= b < c.end_byte
}

/// The best-ranked of the first `k` candidates covering byte `b` (the last of
/// equally ranked ones).
pub open spec fn best_covering(cands: Seq<CaptureCandidate>, b: int, k: int) -> Option<int>
    decreases k,
{
    if k <= 0 {
        None
    } else {
        let prev = best_covering(cands, b, k - 1);
        if covers(cands[k - 1], b) {
            match prev {
                None => Some(k - 1),
                Some(j) => if ranks_at_least(cands[k - 1], cands[j]) {
                    Some(k - 1)
                } else {
                    prev
                },
            }
        } else {
            prev
        }
    }
}

/// Whether `bs` lists, in strictly increasing order, exactly the start and
/// end bytes of the candidates.
pub open spec fn is_boundary_seq(bs: Seq<usize>, cands: Seq<CaptureCandidate>) -> bool {
    &&& forall|i: int, j: int| 0 <= i < j < bs.len() ==> bs[i] < bs[j]
    &&& forall|x: usize| bs.contains(x) <==> exists|i: int| 0 <= i < cands.len() && (#[trigger] cands[i].start_byte == x || cands[i].end_byte == x)
}

/// The spans between the first `k + 1` boundaries: each gap between two
/// consecutive boundaries gets the attribute of the best candidate covering
/// it, if any, pushed with merging.
pub open spec fn sweep_boundaries(cands: Seq<CaptureCandidate>, bs: Seq<usize>, k: int) -> Seq<Span>
    decreases k,
{
    if k <= 0 {
        seq![]
    } else {
        let prev = sweep_boundaries(cands, bs, k - 1);
        match best_covering(cands, bs[k - 1] as int, cands.len() as int) {
            Some(j) => merged_push(
                prev,
                Span { attr_id: cands[j].attr_id, start_byte: bs[k - 1], end_byte: bs[k] },
            ),
            None => prev,
        }
    }
}

/// Sorts integers in ascending order (`slice::sort_unstable`).
///
/// The standard library documents that the slice ends up sorted; a sort
/// only reorders the elements.
#[verifier::external_body]
fn sort_usizes(v: &mut Vec<usize>)
    ensures
        final(v)@.to_multiset() == old(v)@.to_multiset(),
        forall|i: int, j: int| 0 <= i < j < final(v)@.len() ==> final(v)@[i] <= final(v)@[j],
{
    v.sort_unstable();
}

/// The strictly increasing list of all candidate start and end bytes.
fn candidate_boundaries(cands: &Vec<CaptureCandidate>) -> (bs: Vec<usize>)
    ensures
        is_boundary_seq(bs@, cands@),
{
    let mut points: Vec<usize> = Vec::new();
    let mut i: usize = 0;
    while i < cands.len()
        invariant
            i <= cands@.len(),
            points@.len() == 2 * i,
            forall|q: int| 0 <= q < i ==> points@[2 * q] == cands@[q].start_byte && points@[2 * q + 1] == cands@[q].end_byte,
        decreases cands@.len() - i,
    {
        points.push(cands[i].start_byte);
        points.push(cands[i].end_byte);
        i += 1;
    }
    let ghost unsorted = points@;
    assert forall|x: usize| unsorted.contains(x) <==> exists|q: int| 0 <= q < cands@.len() && (#[trigger] cands@[q].start_byte == x || cands@[q].end_byte == x) by {
        if unsorted.contains(x) {
            let p = choose|p: int| 0 <= p < unsorted.len() && #[trigger] unsorted[p] == x;
            let q = p / 2;
            assert(p == 2 * q || p == 2 * q + 1);
            assert(cands@[q].start_byte == x || cands@[q].end_byte == x);
        }
        if exists|q: int| 0 <= q < cands@.len() && (#[trigger] cands@[q].start_byte == x || cands@[q].end_byte == x) {
            let q = choose|q: int| 0 <= q < cands@.len() && (#[trigger] cands@[q].start_byte == x || cands@[q].end_byte == x);
            if cands@[q].start_byte == x {
                assert(unsorted[2 * q] == x);
            } else {
                assert(unsorted[2 * q + 1] == x);
            }
        }
    }
    sort_usizes(&mut points);
    proof {
        assert forall|x: usize| points@.contains(x) <==> unsorted.contains(x) by {
            vstd::seq_lib::to_multiset_contains(points@, x);
            vstd::seq_lib::to_multiset_contains(unsorted, x);
        }
    }
    let mut bs: Vec<usize> = Vec::new();
    let mut k: usize = 0;
    while k < points.len()
        invariant
            k <= points@.len(),
            forall|a: int, b: int| 0 <= a < b < points@.len() ==> points@[a] <= points@[b],
            forall|a: int, b: int| 0 <= a < b < bs@.len() ==> bs@[a] < bs@[b],
            forall|x: usize| bs@.contains(x) <==> points@.take(k as int).contains(x),
            bs@.len() > 0 ==> k > 0 && bs@.last() == points@[k - 1],
        decreases points@.len() - k,
    {
        let p = points[k];
        let n = bs.len();
        let ghost before = bs@;
        if n == 0 || bs[n - 1] != p {
            bs.push(p);
            proof {
                assert forall|a: int, b: int| 0 <= a < b < bs@.len() implies bs@[a] < bs@[b] by {
                    if b == bs@.len() - 1 && a < b {
                        assert(before.last() == points@[k - 1]);
                        assert(points@[k - 1] <= p);
                        if a < before.len() - 1 {
                            assert(before[a] < before.last());
                        }
                    }
                }
            }
        }
        proof {
            let t0 = points@.take(k as int);
            let t1 = points@.take(k + 1);
            assert(t1 == t0.push(p));
            assert(bs@ == before || bs@ == before.push(p));
            assert(bs@.contains(p)) by {
                if bs@ == before.push(p) {
                    assert(bs@[before.len() as int] == p);
                } else {
                    assert(before.len() > 0 && before.last() == p);
                    assert(bs@[before.len() - 1] == p);
                }
            }
            assert(t1.contains(p)) by {
                assert(t1[k as int] == p);
            }
            assert forall|x: usize| x != p implies (bs@.contains(x) <==> before.contains(x)) by {
                if bs@.contains(x) {
                    let w = choose|w: int| 0 <= w < bs@.len() && #[trigger] bs@[w] == x;
                    assert(w < before.len());
                    assert(before[w] == x);
                }
                if before.contains(x) {
                    let w = choose|w: int| 0 <= w < before.len() && #[trigger] before[w] == x;
                    assert(bs@[w] == x);
                }
            }
            assert forall|x: usize| x != p implies (t1.contains(x) <==> t0.contains(x)) by {
                if t1.contains(x) {
                    let w = choose|w: int| 0 <= w < t1.len() && #[trigger] t1[w] == x;
                    assert(w < t0.len());
                    assert(t0[w] == x);
                }
                if t0.contains(x) {
                    let w = choose|w: int| 0 <= w < t0.len() && #[trigger] t0[w] == x;
                    assert(t1[w] == x);
                }
            }
            assert forall|x: usize| #[trigger] bs@.contains(x) <==> t1.contains(x) by {
                if x != p {
                    assert(bs@.contains(x) <==> before.contains(x));
                    assert(before.contains(x) <==> t0.contains(x));
                    assert(t1.contains(x) <==> t0.contains(x));
                }
            }
        }
        k += 1;
    }
    assert(points@.take(points@.len() as int) == points@);
    assert forall|x: usize| bs@.contains(x) <==> exists|q: int| 0 <= q < cands@.len() && (#[trigger] cands@[q].start_byte == x || cands@[q].end_byte == x) by {
        assert(bs@.contains(x) <==> points@.contains(x));
        assert(points@.contains(x) <==> unsorted.contains(x));
    }
    bs
}

/// Picks the best candidate covering byte `b`.
fn best_candidate(cands: &Vec<CaptureCandidate>, b: usize) -> (r: Option<usize>)
    ensures
        r matches Some(j) ==> j < cands@.len(),
        match best_covering(cands@, b as int, cands@.len() as int) {
            Some(j) => 0 <= j < cands@.len() && (r matches Some(x) && x as int == j),
            None => r is None,
        },
{
    let mut best: Option<usize> = None;
    let mut k: usize = 0;
    while k < cands.len()
        invariant
            k <= cands@.len(),
            match best_covering(cands@, b as int, k as int) {
                Some(j) => (best matches Some(x) && x as int == j) && 0 <= j < k && covers(cands@[j], b as int),
                None => best is None,
            },
        decreases cands@.len() - k,
    {
        let c = cands[k];
        if c.start_byte <= b && b < c.end_byte {
            match best {
                None => {
                    best = Some(k);
                },
                Some(j) => {
                    let d = cands[j];
                    let la = c.end_byte - c.start_byte;
                    let lb = d.end_byte - d.start_byte;
                    let better = c.render_priority > d.render_priority || (c.render_priority
                        == d.render_priority && (la < lb || (la == lb && (c.specificity
                        > d.specificity || (c.specificity == d.specificity && (c.pattern_index
                        > d.pattern_index || (c.pattern_index == d.pattern_index && c.order
                        >= d.order)))))));
                    if better {
                        best = Some(k);
                    }
                },
            }
        }
        k += 1;
    }
    best
}

/// Resolves ranked candidates into spans: between consecutive boundaries, the
/// best-ranked candidate covering the gap colors it.
///
/// Smaller overlapping ranges win over enclosing ranges. For equal ranges, more
/// specific capture names win, and remaining ties fall back to later query
/// patterns and then later captures.
pub fn spans_from_candidates(cands: &Vec<CaptureCandidate>) -> (out: Vec<Span>)
    ensures
        exists|bs: Seq<usize>|
            #[trigger] is_boundary_seq(bs, cands@) && out@ == sweep_boundaries(
                cands@,
                bs,
                if bs.len() > 0 {
                    bs.len() - 1
                } else {
                    0
                },
            ),
{
    let bs = candidate_boundaries(cands);
    let mut out: Vec<Span> = Vec::new();
    if bs.len() == 0 {
        assert(is_boundary_seq(bs@, cands@));
        return out;
    }
    let mut i: usize = 0;
    while i + 1 < bs.len()
        invariant
            i + 1 <= bs@.len(),
            out@ == sweep_boundaries(cands@, bs@, i as int),
        decreases bs@.len() - i,
    {
        let ghost prev = out@;
        let b = bs[i];
        let next = bs[i + 1];
        match best_candidate(cands, b) {
            Some(j) => {
                assert(best_covering(cands@, b as int, cands@.len() as int) == Some(j as int));
                push_merged(&mut out, Span { attr_id: cands[j].attr_id, start_byte: b, end_byte: next });
            },
            None => {
                assert(best_covering(cands@, b as int, cands@.len() as int) is None);
            },
        }
        proof {
            let k = i + 1;
            assert(bs@[k - 1] == b && bs@[k as int] == next);
            assert(sweep_boundaries(cands@, bs@, k as int) == match best_covering(cands@, b as int, cands@.len() as int) {
                Some(j) => merged_push(prev, Span { attr_id: cands@[j].attr_id, start_byte: b, end_byte: next }),
                None => prev,
            });
        }
        i += 1;
    }
    assert(is_boundary_seq(bs@, cands@));
    out
}

impl HighlightConfig {
    /// Runs the highlight query over a parse of `source`.
    fn highlight_captures(&mut self, source: &[u8]) -> (r: Option<Vec<(u32, usize, usize, usize)>>)
        ensures
            final(self).grammar == old(self).grammar,
            final(self).highlight_capture_names == old(self).highlight_capture_names,
            final(self).injection_query is None <==> old(self).injection_query is None,
            final(self).injection_content_capture_index == old(self).injection_content_capture_index,
            final(self).injection_language_capture_index == old(self).injection_language_capture_index,
            r matches Some(v) && v@ == highlight_captures_of(grammar_data(old(self).grammar), source@),
            r matches Some(v) ==> forall|i: int| 0 <= i < v@.len() ==> (#[trigger] v@[i]).1 <= v@[i].2 <= source@.len(),
    {
        run_highlight_query(self, source)
    }

    /// Runs the injection query, if the grammar has one, over a parse of `source`.
    fn injection_matches(&mut self, source: &[u8]) -> (r: Option<Option<Vec<RawMatch>>>)
        ensures
            final(self).grammar == old(self).grammar,
            final(self).highlight_capture_names == old(self).highlight_capture_names,
            final(self).injection_query is None <==> old(self).injection_query is None,
            final(self).injection_content_capture_index == old(self).injection_content_capture_index,
            final(self).injection_language_capture_index == old(self).injection_language_capture_index,
            old(self).injection_query is None ==> r == Some(None::<Vec<RawMatch>>),
            old(self).injection_query is Some ==> (r matches Some(Some(v)) && raw_matches_view(v@)
                == injection_matches_of(grammar_data(old(self).grammar), source@)),
    {
        if self.injection_query.is_none() {
            return Some(None);
        }
        match run_injection_query(self, source) {
            Some(m) => Some(Some(m)),
            None => None,
        }
    }
}

/// A found id belongs to an attribute of a table whose ids are positions.
proof fn lemma_id_named_below(attrs: Seq<(usize, Seq<char>)>, name: Seq<char>)
    requires
        attr_table_ok(attrs),
    ensures
        id_named(attrs, name) matches Some(id) ==> id < attrs.len(),
    decreases attrs.len(),
{
    if attrs.len() > 0 && attrs.last().1 != name {
        let d = attrs.drop_last();
        assert(attr_table_ok(d)) by {
            assert forall|i: int| 0 <= i < d.len() implies (#[trigger] d[i]).0 == i by {
                assert(d[i] == attrs[i]);
            }
            assert forall|i: int, j: int| 0 <= i < j < d.len() implies (#[trigger] d[i]).1 != (#[trigger] d[j]).1 by {
                assert(d[i] == attrs[i] && d[j] == attrs[j]);
            }
        }
        lemma_id_named_below(d, name);
    } else if attrs.len() > 0 {
        assert(attrs.last().0 == attrs.len() - 1);
    }
}

/// A table whose ids are positions stays so without its last entry.
proof fn lemma_table_drop_last(attrs: Seq<(usize, Seq<char>)>)
    requires
        attr_table_ok(attrs),
        attrs.len() > 0,
    ensures
        attr_table_ok(attrs.drop_last()),
{
    let d = attrs.drop_last();
    assert forall|i: int| 0 <= i < d.len() implies (#[trigger] d[i]).0 == i by {
        assert(d[i] == attrs[i]);
    }
    assert forall|i: int, j: int| 0 <= i < j < d.len() implies (#[trigger] d[i]).1 != (#[trigger] d[j]).1 by {
        assert(d[i] == attrs[i] && d[j] == attrs[j]);
    }
}

/// The last id found by name lies in a table whose ids are positions; a name
/// that is not found names no attribute.
proof fn lemma_last_id_named(attrs: Seq<(usize, Seq<char>)>, name: Seq<char>)
    requires
        attr_table_ok(attrs),
    ensures
        last_id_named(attrs, name) matches Some(id) ==> id < attrs.len(),
        last_id_named(attrs, name) is None ==> forall|i: int| 0 <= i < attrs.len() ==> (#[trigger] attrs[i]).1 != name,
    decreases attrs.len(),
{
    if attrs.len() > 0 {
        if attrs.last().1 != name {
            lemma_table_drop_last(attrs);
            lemma_last_id_named(attrs.drop_last(), name);
            assert forall|i: int| 0 <= i < attrs.len() - 1 implies (#[trigger] attrs[i]) == attrs.drop_last()[i] by {}
        }
    }
}

/// Remapping into a table whose ids are positions keeps it so, and maps each
/// incoming id to an attribute of the resulting table.
proof fn lemma_remap_ids(incoming: Seq<(usize, Seq<char>)>, attrs: Seq<(usize, Seq<char>)>, k: int)
    requires
        attr_table_ok(attrs),
        0 <= k <= incoming.len(),
        attrs.len() + incoming.len() <= usize::MAX,
    ensures
        attr_table_ok(remap_state(incoming, attrs, k).0),
        remap_state(incoming, attrs, k).0.len() <= attrs.len() + k,
        remap_state(incoming, attrs, k).1.len() == incoming.len(),
        k > 0 ==> remap_state(incoming, attrs, k).0.len() > 0,
        forall|i: int|
            0 <= i < incoming.len() ==> #[trigger] remap_state(incoming, attrs, k).1[i] == 0 || remap_state(
                incoming,
                attrs,
                k,
            ).1[i] < remap_state(incoming, attrs, k).0.len(),
    decreases k,
{
    if k > 0 {
        lemma_remap_ids(incoming, attrs, k - 1);
        let p = remap_state(incoming, attrs, k - 1);
        let a = incoming[k - 1];
        lemma_last_id_named(p.0, a.1);
        match last_id_named(p.0, a.1) {
            Some(id) => {},
            None => {
                let t = p.0.push((p.0.len() as usize, a.1));
                assert forall|i: int| 0 <= i < t.len() implies (#[trigger] t[i]).0 == i by {
                    if i < p.0.len() {
                        assert(t[i] == p.0[i]);
                    }
                }
                assert forall|i: int, j: int| 0 <= i < j < t.len() implies (#[trigger] t[i]).1 != (#[trigger] t[j]).1 by {
                    assert(t[i] == p.0[i]);
                    if j < p.0.len() {
                        assert(t[j] == p.0[j]);
                    }
                }
            },
        }
    }
}

/// Candidates name attributes of a table whose ids are positions.
proof fn lemma_candidate_ids(
    raw: Seq<(u32, usize, usize, usize)>,
    names: Seq<Seq<char>>,
    attrs: Seq<(usize, Seq<char>)>,
    k: int,
)
    requires
        attr_table_ok(attrs),
        0 <= k <= raw.len(),
    ensures
        forall|i: int| 0 <= i < candidates_upto(raw, names, attrs, k).len()
            ==> (#[trigger] candidates_upto(raw, names, attrs, k)[i]).attr_id < attrs.len(),
    decreases k,
{
    if k > 0 {
        lemma_candidate_ids(raw, names, attrs, k - 1);
        let prev = candidates_upto(raw, names, attrs, k - 1);
        let cur = candidates_upto(raw, names, attrs, k);
        let (ci, s, e, pat) = raw[k - 1];
        if !(s >= e || ci >= names.len()) {
            lemma_id_named_below(attrs, names[ci as int]);
            assert forall|i: int| 0 <= i < cur.len() implies (#[trigger] cur[i]).attr_id < attrs.len() by {
                if i < prev.len() {
                    assert(cur[i] == prev[i]);
                }
            }
        }
    }
}

/// The best covering candidate is one of the first `k`.
proof fn lemma_best_covering_range(cands: Seq<CaptureCandidate>, b: int, k: int)
    ensures
        best_covering(cands, b, k) matches Some(j) ==> 0 <= j < k,
    decreases k,
{
    if k > 0 {
        lemma_best_covering_range(cands, b, k - 1);
    }
}

/// Sweeping candidates keeps the ids of the candidates.
proof fn lemma_sweep_boundaries_ids(cands: Seq<CaptureCandidate>, bs: Seq<usize>, k: int, n: int)
    requires
        forall|i: int| 0 <= i < cands.len() ==> (#[trigger] cands[i]).attr_id < n,
        0 <= k < bs.len() || k == 0,
    ensures
        attr_ids_valid(sweep_boundaries(cands, bs, k), n),
    decreases k,
{
    if k > 0 {
        lemma_sweep_boundaries_ids(cands, bs, k - 1, n);
        lemma_best_covering_range(cands, bs[k - 1] as int, cands.len() as int);
        match best_covering(cands, bs[k - 1] as int, cands.len() as int) {
            Some(j) => {
                lemma_merged_push_ids(
                    sweep_boundaries(cands, bs, k - 1),
                    Span { attr_id: cands[j].attr_id, start_byte: bs[k - 1], end_byte: bs[k] },
                    n,
                );
            },
            None => {},
        }
    }
}

/// Candidates end within the source when the raw captures do.
proof fn lemma_candidate_within(
    raw: Seq<(u32, usize, usize, usize)>,
    names: Seq<Seq<char>>,
    attrs: Seq<(usize, Seq<char>)>,
    k: int,
    len: int,
)
    requires
        0 <= k <= raw.len(),
        forall|i: int| 0 <= i < raw.len() ==> (#[trigger] raw[i]).2 <= len,
    ensures
        forall|i: int| 0 <= i < candidates_upto(raw, names, attrs, k).len()
            ==> (#[trigger] candidates_upto(raw, names, attrs, k)[i]).end_byte <= len,
        forall|i: int| 0 <= i < candidates_upto(raw, names, attrs, k).len()
            ==> (#[trigger] candidates_upto(raw, names, attrs, k)[i]).start_byte < candidates_upto(raw, names, attrs, k)[i].end_byte,
    decreases k,
{
    if k > 0 {
        lemma_candidate_within(raw, names, attrs, k - 1, len);
        let prev = candidates_upto(raw, names, attrs, k - 1);
        let cur = candidates_upto(raw, names, attrs, k);
        assert forall|i: int| 0 <= i < cur.len() implies (#[trigger] cur[i]).end_byte <= len && cur[i].start_byte < cur[i].end_byte by {
            if i < prev.len() {
                assert(cur[i] == prev[i]);
            }
        }
    }
}

/// Sweeping candidates that end within `len` gives spans within `len`.
proof fn lemma_sweep_boundaries_within(cands: Seq<CaptureCandidate>, bs: Seq<usize>, k: int, len: int)
    requires
        is_boundary_seq(bs, cands),
        forall|i: int| 0 <= i < cands.len() ==> (#[trigger] cands[i]).end_byte <= len,
        forall|i: int| 0 <= i < cands.len() ==> (#[trigger] cands[i]).start_byte < cands[i].end_byte,
        0 <= k < bs.len() || k == 0,
    ensures
        spans_within(sweep_boundaries(cands, bs, k), len),
    decreases k,
{
    if k > 0 {
        lemma_sweep_boundaries_within(cands, bs, k - 1, len);
        assert(bs.contains(bs[k]));
        let i = choose|i: int| 0 <= i < cands.len() && (#[trigger] cands[i].start_byte == bs[k] || cands[i].end_byte == bs[k]);
        match best_covering(cands, bs[k - 1] as int, cands.len() as int) {
            Some(j) => {
                lemma_merged_push_within(
                    sweep_boundaries(cands, bs, k - 1),
                    Span { attr_id: cands[j].attr_id, start_byte: bs[k - 1], end_byte: bs[k] },
                    len,
                );
            },
            None => {},
        }
    }
}

/// Whether the best candidate covering byte `b` has attribute `a`.
pub open spec fn best_colors(cands: Seq<CaptureCandidate>, b: int, a: usize) -> bool {
    best_covering(cands, b, cands.len() as int) matches Some(j) && cands[j].attr_id == a
}

/// The best covering candidate covers the byte and ranks at least as high as
/// every other candidate that covers it; without one, no candidate covers it.
pub proof fn lemma_best_covering_is_best(cands: Seq<CaptureCandidate>, b: int, k: int)
    requires
        0 <= k <= cands.len(),
    ensures
        best_covering(cands, b, k) matches Some(j) ==> 0 <= j < k && covers(cands[j], b) && forall|i: int|
            0 <= i < k && covers(#[trigger] cands[i], b) ==> ranks_at_least(cands[j], cands[i]),
        best_covering(cands, b, k) is None ==> forall|i: int| 0 <= i < k ==> !covers(#[trigger] cands[i], b),
    decreases k,
{
    if k > 0 {
        lemma_best_covering_is_best(cands, b, k - 1);
    }
}

/// Whether candidate `x` takes precedence over `y` where both cover a byte: a
/// higher render priority; at equal priority, a shorter range; then a capture
/// name with more segments; then a later query pattern; then a later capture.
pub open spec fn outranks(x: CaptureCandidate, y: CaptureCandidate) -> bool {
    let lx = x.end_byte - x.start_byte;
    let ly = y.end_byte - y.start_byte;
    ||| x.render_priority > y.render_priority
    ||| x.render_priority == y.render_priority && lx < ly
    ||| x.render_priority == y.render_priority && lx == ly && x.specificity > y.specificity
    ||| x.render_priority == y.render_priority && lx == ly && x.specificity == y.specificity
        && x.pattern_index > y.pattern_index
    ||| x.render_priority == y.render_priority && lx == ly && x.specificity == y.specificity
        && x.pattern_index == y.pattern_index && x.order > y.order
}

/// A candidate that another candidate covering the same byte outranks is
/// never the one chosen for that byte.
pub proof fn lemma_capture_precedence(cands: Seq<CaptureCandidate>, b: int, w: int, l: int)
    requires
        0 <= w < cands.len(),
        0 <= l < cands.len(),
        covers(cands[w], b),
        covers(cands[l], b),
        outranks(cands[w], cands[l]),
    ensures
        best_covering(cands, b, cands.len() as int) != Some(l),
        best_covering(cands, b, cands.len() as int) is Some,
{
    lemma_best_covering_is_best(cands, b, cands.len() as int);
}

/// A candidate that outranks every other candidate covering a byte colors
/// that byte in the resolved spans.
pub proof fn lemma_top_capture_colors(cands: Seq<CaptureCandidate>, out: Seq<Span>, b: int, w: int)
    requires
        resolved_from_candidates(cands, out),
        0 <= w < cands.len(),
        covers(cands[w], b),
        forall|l: int| 0 <= l < cands.len() && l != w && covers(#[trigger] cands[l], b) ==> outranks(cands[w], cands[l]),
    ensures
        covers_with(out, b, cands[w].attr_id),
{
    lemma_best_covering_is_best(cands, b, cands.len() as int);
    let j = best_covering(cands, b, cands.len() as int)->Some_0;
    if j != w {
        lemma_capture_precedence(cands, b, w, j);
    }
    lemma_resolved_best_capture(cands, out, b, cands[w].attr_id);
}

/// Two bytes covered by the same candidates have the same best candidate.
proof fn lemma_best_covering_same(cands: Seq<CaptureCandidate>, b1: int, b2: int, k: int)
    requires
        0 <= k <= cands.len(),
        forall|i: int| 0 <= i < cands.len() ==> (covers(#[trigger] cands[i], b1) <==> covers(cands[i], b2)),
    ensures
        best_covering(cands, b1, k) == best_covering(cands, b2, k),
    decreases k,
{
    if k > 0 {
        lemma_best_covering_same(cands, b1, b2, k - 1);
    }
}

/// Every boundary is at least the first boundary and at most the last.
proof fn lemma_boundary_index(bs: Seq<usize>, cands: Seq<CaptureCandidate>, x: usize) -> (m: int)
    requires
        is_boundary_seq(bs, cands),
        bs.contains(x),
    ensures
        0 <= m < bs.len(),
        bs[m] == x,
        bs[0] <= x <= bs[bs.len() - 1],
{
    let m = choose|m: int| 0 <= m < bs.len() && bs[m] == x;
    if m > 0 {
        assert(bs[0] < bs[m]);
    }
    if m < bs.len() - 1 {
        assert(bs[m] < bs[bs.len() - 1]);
    }
    m
}

/// A candidate's start and end are boundaries.
proof fn lemma_candidate_boundaries(bs: Seq<usize>, cands: Seq<CaptureCandidate>, q: int)
    requires
        is_boundary_seq(bs, cands),
        0 <= q < cands.len(),
    ensures
        bs.contains(cands[q].start_byte),
        bs.contains(cands[q].end_byte),
{
    let c = cands[q];
    assert(cands[q].start_byte == c.start_byte);
    assert(cands[q].end_byte == c.end_byte);
}

/// Between two consecutive boundaries, each byte is covered by the same
/// candidates as the first of them.
proof fn lemma_boundary_gap(bs: Seq<usize>, cands: Seq<CaptureCandidate>, i: int, b: int)
    requires
        is_boundary_seq(bs, cands),
        0 <= i,
        i + 1 < bs.len(),
        bs[i] <= b < bs[i + 1],
    ensures
        forall|q: int| 0 <= q < cands.len() ==> (covers(#[trigger] cands[q], b) <==> covers(cands[q], bs[i] as int)),
{
    assert forall|q: int| 0 <= q < cands.len() implies (covers(#[trigger] cands[q], b) <==> covers(cands[q], bs[i] as int)) by {
        lemma_candidate_boundaries(bs, cands, q);
        let ms = lemma_boundary_index(bs, cands, cands[q].start_byte);
        let me = lemma_boundary_index(bs, cands, cands[q].end_byte);
        if ms > i {
            assert(bs[i + 1] <= bs[ms]) by {
                if ms > i + 1 {
                    assert(bs[i + 1] < bs[ms]);
                }
            }
        } else if ms < i {
            assert(bs[ms] < bs[i]);
        }
        if me > i {
            assert(bs[i + 1] <= bs[me]) by {
                if me > i + 1 {
                    assert(bs[i + 1] < bs[me]);
                }
            }
        } else if me < i {
            assert(bs[me] < bs[i]);
        }
    }
}

/// A byte that some candidate covers lies between the first and the last
/// boundary.
proof fn lemma_covered_within_boundaries(bs: Seq<usize>, cands: Seq<CaptureCandidate>, q: int, b: int)
    requires
        is_boundary_seq(bs, cands),
        0 <= q < cands.len(),
        covers(cands[q], b),
    ensures
        bs.len() > 0,
        bs[0] <= b < bs[bs.len() - 1],
{
    lemma_candidate_boundaries(bs, cands, q);
    lemma_boundary_index(bs, cands, cands[q].start_byte);
    lemma_boundary_index(bs, cands, cands[q].end_byte);
}

/// The sweep over the first `k + 1` boundaries gives disjoint ordered spans
/// ending by the `k`-th boundary, which cover each byte before it with the
/// attribute of its best covering candidate, and cover no other byte.
proof fn lemma_sweep_boundaries_covers(cands: Seq<CaptureCandidate>, bs: Seq<usize>, k: int)
    requires
        is_boundary_seq(bs, cands),
        0 <= k < bs.len(),
    ensures
        disjoint_ordered(sweep_boundaries(cands, bs, k)),
        sweep_boundaries(cands, bs, k).len() > 0 ==> sweep_boundaries(cands, bs, k).last().end_byte <= bs[k],
        forall|b: int, a: usize|
            #[trigger] covers_with(sweep_boundaries(cands, bs, k), b, a) <==> (b < bs[k] && best_colors(cands, b, a)),
    decreases k,
{
    let n = cands.len() as int;
    if k == 0 {
        assert forall|b: int, a: usize|
            #[trigger] covers_with(sweep_boundaries(cands, bs, k), b, a) <==> (b < bs[k] && best_colors(cands, b, a)) by {
            lemma_best_covering_is_best(cands, b, n);
            if let Some(j) = best_covering(cands, b, n) {
                lemma_covered_within_boundaries(bs, cands, j, b);
            }
        }
    } else {
        lemma_sweep_boundaries_covers(cands, bs, k - 1);
        let o = sweep_boundaries(cands, bs, k - 1);
        let lo = bs[k - 1];
        let hi = bs[k];
        assert(lo < hi);
        match best_covering(cands, lo as int, n) {
            Some(jj) => {
                let sp = Span { attr_id: cands[jj].attr_id, start_byte: lo, end_byte: hi };
                lemma_merged_push_keeps_disjoint(o, sp);
                assert forall|b: int, a: usize|
                    #[trigger] covers_with(sweep_boundaries(cands, bs, k), b, a) <==> (b < hi && best_colors(cands, b, a)) by {
                    if o.len() > 0 {
                        assert(o.last() == o[o.len() - 1]);
                    }
                    lemma_merged_push_covers(o, sp, b, a);
                    if lo <= b < hi {
                        lemma_boundary_gap(bs, cands, k - 1, b);
                        lemma_best_covering_same(cands, b, lo as int, n);
                    }
                }
            },
            None => {
                assert forall|b: int, a: usize|
                    #[trigger] covers_with(sweep_boundaries(cands, bs, k), b, a) <==> (b < hi && best_colors(cands, b, a)) by {
                    if lo <= b < hi {
                        lemma_boundary_gap(bs, cands, k - 1, b);
                        lemma_best_covering_same(cands, b, lo as int, n);
                    }
                }
            },
        }
    }
}

/// The spans swept from candidates are disjoint and ordered, and cover each
/// byte with the attribute of its best covering candidate, and no other byte.
proof fn lemma_candidate_sweep_covers(cands: Seq<CaptureCandidate>, spans: Seq<Span>, b: int, a: usize)
    requires
        is_candidate_sweep(cands, spans),
    ensures
        disjoint_ordered(spans),
        covers_with(spans, b, a) <==> best_colors(cands, b, a),
{
    let bs = choose|bs: Seq<usize>|
        #[trigger] is_boundary_seq(bs, cands) && spans == sweep_boundaries(
            cands,
            bs,
            if bs.len() > 0 {
                bs.len() - 1
            } else {
                0
            },
        );
    lemma_best_covering_is_best(cands, b, cands.len() as int);
    if bs.len() > 0 {
        lemma_sweep_boundaries_covers(cands, bs, bs.len() - 1);
        assert(covers_with(spans, b, a) == covers_with(sweep_boundaries(cands, bs, bs.len() - 1), b, a));
        if let Some(j) = best_covering(cands, b, cands.len() as int) {
            lemma_covered_within_boundaries(bs, cands, j, b);
        }
    } else {
        if let Some(j) = best_covering(cands, b, cands.len() as int) {
            lemma_covered_within_boundaries(bs, cands, j, b);
        }
    }
}

/// Resolving capture candidates colors each byte with the attribute of the
/// best-ranked candidate covering it (see `lemma_best_covering_is_best`), and
/// leaves bytes that no candidate covers uncolored.
pub proof fn lemma_resolved_best_capture(cands: Seq<CaptureCandidate>, out: Seq<Span>, b: int, a: usize)
    requires
        resolved_from_candidates(cands, out),
    ensures
        covers_with(out, b, a) <==> best_colors(cands, b, a),
{
    if cands.len() == 0 {
        assert(best_covering(cands, b, 0) is None);
    } else {
        let spans = choose|spans: Seq<Span>| #[trigger] is_candidate_sweep(cands, spans) && is_normalization(spans, out);
        let t = choose|t: Seq<Span>| #[trigger] sorted_permutation_of(t, spans) && out == sweep_all(t);
        lemma_candidate_sweep_covers(cands, spans, b, a);
        lemma_normalized_disjoint_covers(spans, t, b, a);
    }
}

/// Whether `out` is `spans` sorted and swept into a normalized sequence.
pub open spec fn is_normalization(spans: Seq<Span>, out: Seq<Span>) -> bool {
    exists|t: Seq<Span>| #[trigger] sorted_permutation_of(t, spans) && out == sweep_all(t)
}

/// Whether `spans` is the sweep of candidates over a sequence of their
/// boundaries.
pub open spec fn is_candidate_sweep(cands: Seq<CaptureCandidate>, spans: Seq<Span>) -> bool {
    exists|bs: Seq<usize>|
        #[trigger] is_boundary_seq(bs, cands) && spans == sweep_boundaries(
            cands,
            bs,
            if bs.len() > 0 {
                bs.len() - 1
            } else {
                0
            },
        )
}

/// Whether `out` is the normalized spans that candidates resolve into: none
/// without candidates.
pub open spec fn resolved_from_candidates(cands: Seq<CaptureCandidate>, out: Seq<Span>) -> bool {
    if cands.len() == 0 {
        out.len() == 0
    } else {
        exists|spans: Seq<Span>| #[trigger] is_candidate_sweep(cands, spans) && is_normalization(spans, out)
    }
}

/// Whether `out` is the normalized spans of raw captures, named by `names`
/// and numbered by the attribute table `attrs`.
pub open spec fn spans_of_captures(
    raw: Seq<(u32, usize, usize, usize)>,
    names: Seq<Seq<char>>,
    attrs: Seq<(usize, Seq<char>)>,
    out: Seq<Span>,
) -> bool {
    resolved_from_candidates(candidates_upto(raw, names, attrs, raw.len() as int), out)
}

/// Highlights source using a grammar's highlight query: ranked candidates
/// are resolved into spans, which are then normalized.
///
/// # Errors
///
/// Returns [`HighlightError::Parse`] when parsing fails.
fn highlight_with_query_cursor(
    source: &[u8],
    attrs: &Vec<Attr>,
    config: &mut HighlightConfig,
) -> (r: Result<Vec<Span>, HighlightError>)
    requires
        attr_table_ok(attrs_view(attrs@)),
    ensures
        final(config).grammar == old(config).grammar,
        final(config).highlight_capture_names == old(config).highlight_capture_names,
        final(config).injection_query is None <==> old(config).injection_query is None,
        final(config).injection_content_capture_index == old(config).injection_content_capture_index,
        final(config).injection_language_capture_index == old(config).injection_language_capture_index,
        r matches Ok(spans) && disjoint_ordered(spans@) && attr_ids_valid(spans@, attrs@.len() as int)
            && spans_within(spans@, source@.len() as int) && spans_of_captures(
            highlight_captures_of(grammar_data(old(config).grammar), source@),
            string_views(old(config).highlight_capture_names@),
            attrs_view(attrs@),
            spans@,
        ),
{
    let raw = match config.highlight_captures(source) {
        Some(raw) => raw,
        None => {
            return Err(HighlightError::Parse);
        },
    };
    let cands = candidates_from_captures(&raw, &config.highlight_capture_names, attrs);
    if cands.len() == 0 {
        let empty: Vec<Span> = Vec::new();
        assert(disjoint_ordered(empty@));
        return Ok(empty);
    }
    let spans = spans_from_candidates(&cands);
    let out = normalize_spans(spans);
    proof {
        let n = attrs@.len() as int;
        lemma_candidate_ids(raw@, string_views(config.highlight_capture_names@), attrs_view(attrs@), raw@.len() as int);
        let bs = choose|bs: Seq<usize>|
            #[trigger] is_boundary_seq(bs, cands@) && spans@ == sweep_boundaries(
                cands@,
                bs,
                if bs.len() > 0 {
                    bs.len() - 1
                } else {
                    0
                },
            );
        lemma_sweep_boundaries_ids(cands@, bs, if bs.len() > 0 { bs.len() - 1 } else { 0 }, n);
        lemma_candidate_within(raw@, string_views(config.highlight_capture_names@), attrs_view(attrs@), raw@.len() as int, source@.len() as int);
        lemma_sweep_boundaries_within(cands@, bs, if bs.len() > 0 { bs.len() - 1 } else { 0 }, source@.len() as int);
        let t = choose|t: Seq<Span>| #[trigger] sorted_permutation_of(t, spans@) && out@ == sweep_all(t);
        lemma_normalized_ids(spans@, t, n);
        lemma_normalized_within(spans@, t, source@.len() as int);
        lemma_sweep_disjoint_ordered(t, t.len() as int);
        assert(is_normalization(spans@, out@));
        assert(is_candidate_sweep(cands@, spans@));
    }
    Ok(out)
}

/// The text of a byte range of the source, when the range lies within it and
/// is valid UTF-8.
pub open spec fn range_text(src: Seq<u8>, s: int, e: int) -> Option<Seq<char>> {
    if 0 <= s <= e <= src.len() && vstd::utf8::valid_utf8(src.subrange(s, e)) {
        Some(vstd::utf8::decode_utf8(src.subrange(s, e)))
    } else {
        None
    }
}

/// The language named by the captures of an injection match: the text of
/// the last capture with the language index, when the match has one.
pub open spec fn captured_language(src: Seq<u8>, caps: Seq<(u32, usize, usize)>, lang_idx: Option<u32>, k: int) -> Option<Option<Seq<char>>>
    decreases k,
{
    if k <= 0 {
        None
    } else if Some(caps[k - 1].0) == lang_idx {
        Some(range_text(src, caps[k - 1].1 as int, caps[k - 1].2 as int))
    } else {
        captured_language(src, caps, lang_idx, k - 1)
    }
}

/// The range of the last capture with the content index that is not also
/// the language index.
pub open spec fn captured_content(caps: Seq<(u32, usize, usize)>, content_idx: Option<u32>, lang_idx: Option<u32>, k: int) -> Option<(usize, usize)>
    decreases k,
{
    if k <= 0 {
        None
    } else if Some(caps[k - 1].0) != lang_idx && Some(caps[k - 1].0) == content_idx {
        Some((caps[k - 1].1, caps[k - 1].2))
    } else {
        captured_content(caps, content_idx, lang_idx, k - 1)
    }
}

/// The language name after the first `k` property settings: an
/// `injection.language` value, or `objectscript` for `injection.self` and
/// `injection.parent`, when no name is known yet.
pub open spec fn language_from_props(props: Seq<(Seq<char>, Option<Seq<char>>)>, name: Option<Seq<char>>, k: int) -> Option<Seq<char>>
    decreases k,
{
    if k <= 0 {
        name
    } else {
        let prev = language_from_props(props, name, k - 1);
        let (key, value) = props[k - 1];
        if prev is None && key == "injection.language"@ {
            value
        } else if prev is None && (key == "injection.self"@ || key == "injection.parent"@) {
            Some("objectscript"@)
        } else {
            prev
        }
    }
}

/// The views of a raw match.
pub open spec fn raw_match_view(m: RawMatch) -> (Seq<(u32, usize, usize)>, Seq<(Seq<char>, Option<Seq<char>>)>) {
    (
        m.0@,
        m.1@.map_values(|p: (String, Option<String>)| (p.0@, match p.1 { Some(v) => Some(v@), None => None })),
    )
}

/// The injection region of a match: its language must name a grammar and its
/// content capture must cover a non-empty range.
pub open spec fn injection_region_of(
    src: Seq<u8>,
    caps: Seq<(u32, usize, usize)>,
    props: Seq<(Seq<char>, Option<Seq<char>>)>,
    content_idx: Option<u32>,
    lang_idx: Option<u32>,
) -> Option<InjectionRegion> {
    let from_caps = match captured_language(src, caps, lang_idx, caps.len() as int) {
        Some(t) => t,
        None => None,
    };
    let name = language_from_props(props, from_caps, props.len() as int);
    let grammar = match name {
        Some(n) => crate::grammar::grammar_from_key(crate::grammar::alnum_lower(n)),
        None => None,
    };
    match (grammar, captured_content(caps, content_idx, lang_idx, caps.len() as int)) {
        (Some(g), Some((s, e))) => if s < e {
            Some(InjectionRegion { grammar: g, start_byte: s, end_byte: e })
        } else {
            None
        },
        _ => None,
    }
}

/// Converts a query match to an [`InjectionRegion`] when captures are complete.
///
/// Returns `None` when language or content captures are missing, unknown, or empty.
pub fn injection_region_for_match(
    source: &[u8],
    m: &RawMatch,
    content_capture: Option<u32>,
    language_capture: Option<u32>,
) -> (r: Option<InjectionRegion>)
    ensures
        r == injection_region_of(source@, raw_match_view(*m).0, raw_match_view(*m).1, content_capture, language_capture),
{
    let ghost caps = raw_match_view(*m).0;
    let ghost props = raw_match_view(*m).1;
    let mut language: Option<String> = None;
    let mut seen_language = false;
    let mut content: Option<(usize, usize)> = None;
    let mut k: usize = 0;
    while k < m.0.len()
        invariant
            k <= m.0@.len(),
            caps == raw_match_view(*m).0,
            caps.len() == m.0@.len(),
            seen_language == (captured_language(source@, caps, language_capture, k as int) is Some),
            seen_language ==> captured_language(source@, caps, language_capture, k as int) == Some(match language { Some(t) => Some(t@), None => None }),
            content == captured_content(caps, content_capture, language_capture, k as int),
        decreases m.0@.len() - k,
    {
        let c = &m.0[k];
        let index = Some(c.0);
        if index == language_capture {
            language = if c.1 <= c.2 && c.2 <= source.len() {
                utf8_text(&source[c.1..c.2])
            } else {
                None
            };
            seen_language = true;
        } else if index == content_capture {
            content = Some((c.1, c.2));
        }
        k += 1;
    }
    let ghost from_caps = match captured_language(source@, caps, language_capture, caps.len() as int) {
        Some(t) => t,
        None => None,
    };
    if !seen_language {
        language = None;
    }
    let mut j: usize = 0;
    while j < m.1.len()
        invariant
            j <= m.1@.len(),
            props == raw_match_view(*m).1,
            props.len() == m.1@.len(),
            (match language { Some(t) => Some(t@), None => None }) == language_from_props(props, from_caps, j as int),
        decreases m.1@.len() - j,
    {
        let p = &m.1[j];
        if language.is_none() {
            if crate::text::text_eq(&p.0, "injection.language") {
                language = match &p.1 {
                    Some(v) => Some(v.clone()),
                    None => None,
                };
            } else if crate::text::text_eq(&p.0, "injection.self") || crate::text::text_eq(&p.0, "injection.parent") {
                language = Some(String::from_str("objectscript"));
            }
        }
        j += 1;
    }
    let grammar = match &language {
        Some(n) => Grammar::from_name(n.as_str()),
        None => None,
    };
    match (grammar, content) {
        (Some(g), Some((s, e))) => if s < e {
            Some(InjectionRegion { grammar: g, start_byte: s, end_byte: e })
        } else {
            None
        },
        _ => None,
    }
}

/// The position of a grammar in declaration order.
pub open spec fn grammar_rank(g: Grammar) -> int {
    match g {
        Grammar::ObjectScript => 0,
        Grammar::ObjectScriptRoutine => 1,
        Grammar::Sql => 2,
        Grammar::Python => 3,
        Grammar::Markdown => 4,
        Grammar::Mdx => 5,
        Grammar::Xml => 6,
        Grammar::Json => 7,
        Grammar::Yaml => 8,
        Grammar::Css => 9,
        Grammar::Html => 10,
        Grammar::JavaScript => 11,
        Grammar::JsDoc => 12,
        Grammar::ObjectScriptUdl => 13,
        Grammar::Regex => 14,
        Grammar::Toml => 15,
    }
}

/// Injection order: by start, then longer first, then grammar.
pub open spec fn injection_le(a: InjectionRegion, b: InjectionRegion) -> bool {
    a.start_byte < b.start_byte || (a.start_byte == b.start_byte && (a.end_byte > b.end_byte || (
    a.end_byte == b.end_byte && grammar_rank(a.grammar) <= grammar_rank(b.grammar))))
}

/// Whether `t` holds the regions of `s` in injection order.
pub open spec fn sorted_regions_of(t: Seq<InjectionRegion>, s: Seq<InjectionRegion>) -> bool {
    &&& t.to_multiset() == s.to_multiset()
    &&& forall|i: int, j: int| 0 <= i < j < t.len() ==> injection_le(#[trigger] t[i], #[trigger] t[j])
}

/// The regions with runs of equal neighbors reduced to one.
pub open spec fn dedup_regions(t: Seq<InjectionRegion>, k: int) -> Seq<InjectionRegion>
    decreases k,
{
    if k <= 0 {
        seq![]
    } else {
        let prev = dedup_regions(t, k - 1);
        if prev.len() > 0 && prev.last() == t[k - 1] {
            prev
        } else {
            prev.push(t[k - 1])
        }
    }
}

/// The end of the last region kept from the first `k` regions.
pub open spec fn kept_end(t: Seq<InjectionRegion>, k: int) -> int
    decreases k,
{
    if k <= 0 {
        0
    } else if t[k - 1].start_byte < kept_end(t, k - 1) {
        kept_end(t, k - 1)
    } else {
        t[k - 1].end_byte as int
    }
}

/// The regions that start at or after the end of the last region kept before them.
pub open spec fn non_overlapping(t: Seq<InjectionRegion>, k: int) -> Seq<InjectionRegion>
    decreases k,
{
    if k <= 0 {
        seq![]
    } else if t[k - 1].start_byte < kept_end(t, k - 1) {
        non_overlapping(t, k - 1)
    } else {
        non_overlapping(t, k - 1).push(t[k - 1])
    }
}

/// Whether `out` is the injection plan for the found `regions`: sorted,
/// deduplicated, and with regions overlapping an earlier kept one dropped.
pub open spec fn injection_plan(regions: Seq<InjectionRegion>, out: Seq<InjectionRegion>) -> bool {
    exists|t: Seq<InjectionRegion>| #[trigger] sorted_regions_of(t, regions) && out == non_overlapping(
        dedup_regions(t, t.len() as int),
        dedup_regions(t, t.len() as int).len() as int,
    )
}

fn injection_leq(a: InjectionRegion, b: InjectionRegion) -> (r: bool)
    ensures
        r == injection_le(a, b),
{
    let ga = grammar_index(a.grammar);
    let gb = grammar_index(b.grammar);
    proof {
        assert(ga as int == grammar_rank(a.grammar));
        assert(gb as int == grammar_rank(b.grammar));
    }
    a.start_byte < b.start_byte || (a.start_byte == b.start_byte && (a.end_byte > b.end_byte || (
    a.end_byte == b.end_byte && ga <= gb)))
}

/// Plans injections: sorts the found regions, drops duplicates and drops
/// regions that overlap an earlier kept one.
pub fn plan_injections(regions: &Vec<InjectionRegion>) -> (out: Vec<InjectionRegion>)
    ensures
        injection_plan(regions@, out@),
{
    let mut sorted: Vec<InjectionRegion> = Vec::new();
    let mut i: usize = 0;
    assert(sorted@ =~= regions@.take(0));
    while i < regions.len()
        invariant
            i <= regions@.len(),
            sorted@.to_multiset() == regions@.take(i as int).to_multiset(),
            forall|a: int, b: int| 0 <= a < b < sorted@.len() ==> injection_le(#[trigger] sorted@[a], #[trigger] sorted@[b]),
        decreases regions@.len() - i,
    {
        let x = regions[i];
        let mut p: usize = 0;
        while p < sorted.len() && injection_leq(sorted[p], x)
            invariant
                p <= sorted@.len(),
                forall|a: int| 0 <= a < p ==> injection_le(#[trigger] sorted@[a], x),
            decreases sorted@.len() - p,
        {
            p += 1;
        }
        let ghost before = sorted@;
        sorted.insert(p, x);
        proof {
            assert(regions@.take(i + 1) == regions@.take(i as int).push(x));
            vstd::seq_lib::to_multiset_insert(before, p as int, x);
            vstd::seq_lib::to_multiset_build(regions@.take(i as int), x);
            assert forall|a: int, b: int| 0 <= a < b < sorted@.len() implies injection_le(#[trigger] sorted@[a], #[trigger] sorted@[b]) by {
                if b < p {
                    assert(sorted@[a] == before[a] && sorted@[b] == before[b]);
                } else if b == p {
                    assert(sorted@[a] == before[a]);
                } else if a < p {
                    assert(sorted@[a] == before[a] && sorted@[b] == before[b - 1]);
                    assert(!injection_le(before[p as int], x));
                    if b - 1 > p {
                        assert(injection_le(before[p as int], before[b - 1]));
                    }
                } else if a == p {
                    assert(sorted@[b] == before[b - 1]);
                    assert(!injection_le(before[p as int], x));
                    if b - 1 > p {
                        assert(injection_le(before[p as int], before[b - 1]));
                    }
                } else {
                    assert(sorted@[a] == before[a - 1] && sorted@[b] == before[b - 1]);
                }
            }
        }
        i += 1;
    }
    assert(regions@.take(regions@.len() as int) == regions@);
    let ghost t = sorted@;
    let mut unique: Vec<InjectionRegion> = Vec::new();
    let mut k: usize = 0;
    while k < sorted.len()
        invariant
            k <= sorted@.len(),
            t == sorted@,
            unique@ == dedup_regions(t, k as int),
        decreases sorted@.len() - k,
    {
        let x = sorted[k];
        let n = unique.len();
        if n == 0 || unique[n - 1] != x {
            unique.push(x);
        }
        k += 1;
    }
    let ghost u = unique@;
    let mut out: Vec<InjectionRegion> = Vec::new();
    let mut last_end: usize = 0;
    let mut q: usize = 0;
    while q < unique.len()
        invariant
            q <= unique@.len(),
            u == unique@,
            last_end as int == kept_end(u, q as int),
            out@ == non_overlapping(u, q as int),
        decreases unique@.len() - q,
    {
        let x = unique[q];
        if x.start_byte >= last_end {
            last_end = x.end_byte;
            out.push(x);
        }
        q += 1;
    }
    assert(sorted_regions_of(t, regions@));
    out
}

/// Joins lines with `\n`.
pub open spec fn joined_lines(lines: Seq<Seq<char>>) -> Seq<char>
    decreases lines.len(),
{
    if lines.len() == 0 {
        seq![]
    } else if lines.len() == 1 {
        lines[0]
    } else {
        joined_lines(lines.drop_last()) + seq!['\n'] + lines.last()
    }
}

/// Joins lines with `\n`.
pub fn join_lines(lines: &[&str]) -> (s: String)
    ensures
        s@ == joined_lines(lines@.map_values(|l: &str| l@)),
{
    let ghost lv = lines@.map_values(|l: &str| l@);
    let mut s = String::new();
    let mut i: usize = 0;
    while i < lines.len()
        invariant
            i <= lines@.len(),
            lv == lines@.map_values(|l: &str| l@),
            s@ == joined_lines(lv.take(i as int)),
        decreases lines@.len() - i,
    {
        assert(lv.take(i + 1).drop_last() == lv.take(i as int));
        if i > 0 {
            crate::text::push_char(&mut s, '\n');
        } else {
            assert(lv.take(0) =~= Seq::<Seq<char>>::empty());
        }
        crate::text::push_str(&mut s, lines[i]);
        i += 1;
    }
    assert(lv.take(lines@.len() as int) == lv);
    s
}

/// Whether a grammar gets injections resolved by the highlighter itself.
pub open spec fn has_manual_injections(g: Grammar) -> bool {
    g == Grammar::ObjectScript || g == Grammar::ObjectScriptRoutine || g == Grammar::Xml
}

/// Whether spans lie within a table of `n` attributes.
pub open spec fn attrs_in_table(spans: Seq<Span>, n: int) -> bool {
    forall|i: int| 0 <= i < spans.len() ==> (#[trigger] spans[i]).attr_id < n
}

/// Whether `out` is the normalized spans of what a grammar's highlight query
/// captures in `source`, numbered by the attribute table `attrs`.
pub open spec fn base_spans(g: Grammar, source: Seq<u8>, attrs: Seq<(usize, Seq<char>)>, out: Seq<Span>) -> bool {
    spans_of_captures(highlight_captures_of(grammar_data(g), source), highlight_capture_names_of(grammar_data(g)), attrs, out)
}

impl SpanHighlighter {
    /// Runs the base tree-sitter highlight pass for a single grammar.
    ///
    /// # Errors
    ///
    /// Returns [`HighlightError::Parse`] when parsing fails.
    fn highlight_base(&mut self, source: &[u8], grammar: Grammar) -> (r: Result<HighlightResult, HighlightError>)
        requires
            old(self).well_formed(),
        ensures
            final(self).well_formed(),
            final(self).attr_table() == old(self).attr_table(),
            final(self).logs_timing() == old(self).logs_timing(),
            forall|g: Grammar| final(self).injection_setup(g) == old(self).injection_setup(g),
            r matches Ok(h) && attrs_view(h.attrs@) == old(self).attr_table() && disjoint_ordered(h.spans@)
                && attr_ids_valid(h.spans@, h.attrs@.len() as int) && spans_within(h.spans@, source@.len() as int)
                && base_spans(grammar, source@, old(self).attr_table(), h.spans@),
    {
        let attrs = crate::spans::clone_attrs(&self.attrs);
        let idx = grammar_index(grammar);
        let mut config = self.configs.remove(idx);
        assert(config.names_ok() && config.grammar == grammar);
        let result = highlight_with_query_cursor(source, &self.attrs, &mut config);
        self.configs.insert(idx, config);
        proof {
            assert forall|i: int| 0 <= i < self.configs@.len() implies (#[trigger] self.configs@[i]).grammar == all_grammars()[i] by {
                if i == idx {
                } else if i < idx {
                    assert(self.configs@[i] == old(self).configs@[i]);
                } else {
                    assert(self.configs@[i] == old(self).configs@[i]);
                }
            }
            assert forall|g: Grammar| self.injection_setup(g) == old(self).injection_setup(g) by {
                if grammar_rank(g) != idx {
                    assert(self.configs@[grammar_rank(g)] == old(self).configs@[grammar_rank(g)]);
                }
            }
        }
        match result {
            Ok(spans) => Ok(HighlightResult { attrs, spans }),
            Err(e) => Err(e),
        }
    }
}

/// The injection regions of the first `k` query matches, in match order.
pub open spec fn regions_of_matches(
    src: Seq<u8>,
    ms: Seq<(Seq<(u32, usize, usize)>, Seq<(Seq<char>, Option<Seq<char>>)>)>,
    content_idx: Option<u32>,
    lang_idx: Option<u32>,
    k: int,
) -> Seq<InjectionRegion>
    decreases k,
{
    if k <= 0 {
        seq![]
    } else {
        let prev = regions_of_matches(src, ms, content_idx, lang_idx, k - 1);
        match injection_region_of(src, ms[k - 1].0, ms[k - 1].1, content_idx, lang_idx) {
            Some(r) => prev.push(r),
            None => prev,
        }
    }
}

/// The injection regions that a grammar's injection query finds in `src`,
/// with the given content and language capture indices.
pub open spec fn found_regions(g: Grammar, src: Seq<u8>, content_idx: Option<u32>, lang_idx: Option<u32>) -> Seq<InjectionRegion> {
    let ms = injection_matches_of(grammar_data(g), src);
    regions_of_matches(src, ms, content_idx, lang_idx, ms.len() as int)
}

proof fn lemma_empty_plan()
    ensures
        injection_plan(Seq::<InjectionRegion>::empty(), Seq::<InjectionRegion>::empty()),
{
    let t = Seq::<InjectionRegion>::empty();
    assert(t.to_multiset() =~= Seq::<InjectionRegion>::empty().to_multiset());
    assert(sorted_regions_of(t, Seq::<InjectionRegion>::empty()));
    assert(dedup_regions(t, 0) =~= Seq::<InjectionRegion>::empty());
    assert(non_overlapping(dedup_regions(t, 0), 0) =~= Seq::<InjectionRegion>::empty());
}

/// The byte ranges of injection regions.
pub open spec fn injection_ranges(inj: Seq<InjectionRegion>) -> Seq<(usize, usize)> {
    inj.map_values(|r: InjectionRegion| (r.start_byte, r.end_byte))
}

/// Whether `out` is the normalization of the `base` spans with the injection
/// regions cut out and the `injected` spans added.
pub open spec fn spans_with_injected(
    base: Seq<Span>,
    inj: Seq<InjectionRegion>,
    injected: Seq<Span>,
    out: Seq<Span>,
) -> bool {
    exists|t: Seq<Span>| #[trigger] sorted_permutation_of(t, excluded(base, injection_ranges(inj)) + injected) && out == sweep_all(t)
}

/// The spans highlighted inside one region, moved to source offsets by
/// `offset` and renumbered through `remap`; spans naming an attribute beyond
/// `remap` are dropped.
pub open spec fn shifted_spans(spans: Seq<Span>, remap: Seq<usize>, offset: usize, k: int) -> Seq<Span>
    decreases k,
{
    if k <= 0 {
        seq![]
    } else {
        let prev = shifted_spans(spans, remap, offset, k - 1);
        let s = spans[k - 1];
        if (s.attr_id as int) < remap.len() {
            prev.push(
                Span {
                    attr_id: remap[s.attr_id as int],
                    start_byte: s.start_byte.saturating_add(offset),
                    end_byte: s.end_byte.saturating_add(offset),
                },
            )
        } else {
            prev
        }
    }
}

/// Whether a region lies within a source of length `len`.
pub open spec fn region_in(r: InjectionRegion, len: int) -> bool {
    r.start_byte <= r.end_byte && r.end_byte <= len
}

/// The injected spans and the attribute table after the first `k` regions:
/// each region within the source has its spans `nested[i]` renumbered into
/// the table (which grows by the names it lacks) and moved to source
/// offsets, while the table has room for the region's attributes.
pub open spec fn injection_state(
    src_len: int,
    inj: Seq<InjectionRegion>,
    table: Seq<(usize, Seq<char>)>,
    nested: Seq<Seq<Span>>,
    attrs0: Seq<(usize, Seq<char>)>,
    k: int,
) -> (Seq<Span>, Seq<(usize, Seq<char>)>)
    decreases k,
{
    if k <= 0 {
        (seq![], attrs0)
    } else {
        let p = injection_state(src_len, inj, table, nested, attrs0, k - 1);
        let r = inj[k - 1];
        if region_in(r, src_len) && p.1.len() + table.len() <= usize::MAX {
            let st = remap_state(table, p.1, table.len() as int);
            (p.0 + shifted_spans(nested[k - 1], st.1, r.start_byte, nested[k - 1].len() as int), st.0)
        } else {
            p
        }
    }
}

/// Whether `nested[i]` are the base spans of each region within `src`, in
/// the region's grammar over the region's bytes.
pub open spec fn regions_highlighted(
    src: Seq<u8>,
    inj: Seq<InjectionRegion>,
    table: Seq<(usize, Seq<char>)>,
    nested: Seq<Seq<Span>>,
) -> bool {
    &&& nested.len() == inj.len()
    &&& forall|i: int|
        0 <= i < inj.len() && region_in(inj[i], src.len() as int) ==> base_spans(
            inj[i].grammar,
            src.subrange(inj[i].start_byte as int, inj[i].end_byte as int),
            table,
            #[trigger] nested[i],
        )
}

/// Whether `out_spans` and `out_attrs` come from the base spans and
/// attributes by injecting the regions' spans `nested`.
pub open spec fn injected_with(
    src: Seq<u8>,
    inj: Seq<InjectionRegion>,
    table: Seq<(usize, Seq<char>)>,
    nested: Seq<Seq<Span>>,
    base_spans: Seq<Span>,
    base_attrs: Seq<(usize, Seq<char>)>,
    out_spans: Seq<Span>,
    out_attrs: Seq<(usize, Seq<char>)>,
) -> bool {
    let st = injection_state(src.len() as int, inj, table, nested, base_attrs, inj.len() as int);
    &&& regions_highlighted(src, inj, table, nested)
    &&& out_attrs == st.1
    &&& spans_with_injected(base_spans, inj, st.0, out_spans)
}

/// Whether `out_spans` and `out_attrs` are the base spans and attributes with
/// the regions cut out and the spans that each region's own grammar gives
/// for its bytes injected in their place.
pub open spec fn replaced_by_regions(
    src: Seq<u8>,
    inj: Seq<InjectionRegion>,
    table: Seq<(usize, Seq<char>)>,
    base_spans: Seq<Span>,
    base_attrs: Seq<(usize, Seq<char>)>,
    out_spans: Seq<Span>,
    out_attrs: Seq<(usize, Seq<char>)>,
) -> bool {
    exists|nested: Seq<Seq<Span>>|
        #[trigger] injected_with(src, inj, table, nested, base_spans, base_attrs, out_spans, out_attrs)
}

/// The injection state after `k` regions reads only the first `k` nested
/// span lists.
proof fn lemma_injection_state_prefix(
    src_len: int,
    inj: Seq<InjectionRegion>,
    table: Seq<(usize, Seq<char>)>,
    n1: Seq<Seq<Span>>,
    n2: Seq<Seq<Span>>,
    attrs0: Seq<(usize, Seq<char>)>,
    k: int,
)
    requires
        k <= n1.len(),
        k <= n2.len(),
        forall|i: int| 0 <= i < k ==> n1[i] == n2[i],
    ensures
        injection_state(src_len, inj, table, n1, attrs0, k) == injection_state(src_len, inj, table, n2, attrs0, k),
    decreases k,
{
    if k > 0 {
        lemma_injection_state_prefix(src_len, inj, table, n1, n2, attrs0, k - 1);
        assert(n1[k - 1] == n2[k - 1]);
    }
}

/// Whether `plan` is the injection plan of a grammar over `src`: empty
/// without an injection query.
pub open spec fn plan_for(setup: Option<(Option<u32>, Option<u32>)>, g: Grammar, src: Seq<u8>, plan: Seq<InjectionRegion>) -> bool {
    match setup {
        None => plan.len() == 0,
        Some((c, l)) => injection_plan(found_regions(g, src, c, l), plan),
    }
}

/// Whether `out` and `out_attrs` come from the `base` spans of a grammar over
/// `src` and the injection `plan`: the base spans and the table where nothing
/// is injected, else the base spans with the regions replaced.
pub open spec fn injected_from(
    setup: Option<(Option<u32>, Option<u32>)>,
    g: Grammar,
    src: Seq<u8>,
    table: Seq<(usize, Seq<char>)>,
    base: Seq<Span>,
    plan: Seq<InjectionRegion>,
    out: Seq<Span>,
    out_attrs: Seq<(usize, Seq<char>)>,
) -> bool {
    &&& base_spans(g, src, table, base)
    &&& plan_for(setup, g, src, plan)
    &&& plan.len() == 0 ==> out == base && out_attrs == table
    &&& plan.len() > 0 ==> replaced_by_regions(src, plan, table, base, table, out, out_attrs)
}

/// Whether `out` and `out_attrs` are the highlight of a grammar with
/// injections over `src`.
pub open spec fn injected_spans(
    setup: Option<(Option<u32>, Option<u32>)>,
    g: Grammar,
    src: Seq<u8>,
    table: Seq<(usize, Seq<char>)>,
    out: Seq<Span>,
    out_attrs: Seq<(usize, Seq<char>)>,
) -> bool {
    exists|base: Seq<Span>, plan: Seq<InjectionRegion>|
        #[trigger] injected_from(setup, g, src, table, base, plan, out, out_attrs)
}

/// Whether `h` is what a highlighter with attribute table `table` and
/// injection setup `setup` gives for `src` in grammar `g`.
pub open spec fn highlights_as(
    setup: Option<(Option<u32>, Option<u32>)>,
    table: Seq<(usize, Seq<char>)>,
    g: Grammar,
    src: Seq<u8>,
    h: HighlightResult,
) -> bool {
    &&& disjoint_ordered(h.spans@)
    &&& spans_within(h.spans@, src.len() as int)
    &&& attr_ids_valid(h.spans@, h.attrs@.len() as int)
    &&& attr_table_ok(attrs_view(h.attrs@))
    &&& table.is_prefix_of(attrs_view(h.attrs@))
    &&& !has_manual_injections(g) ==> attrs_view(h.attrs@) == table && base_spans(g, src, table, h.spans@)
    &&& has_manual_injections(g) ==> injected_spans(setup, g, src, table, h.spans@, attrs_view(h.attrs@))
}

impl SpanHighlighter {
    /// Finds and plans the injection regions of a host grammar.
    ///
    /// # Errors
    ///
    /// Returns [`HighlightError::Parse`] when parsing fails.
    fn find_injections(&mut self, source: &[u8], grammar: Grammar) -> (r: Result<Vec<InjectionRegion>, HighlightError>)
        requires
            old(self).well_formed(),
        ensures
            final(self).well_formed(),
            final(self).attr_table() == old(self).attr_table(),
            final(self).logs_timing() == old(self).logs_timing(),
            forall|g: Grammar| final(self).injection_setup(g) == old(self).injection_setup(g),
            r matches Ok(v) && (old(self).configs@[grammar_rank(grammar)].injection_query is None ==> v@.len() == 0)
                && (old(self).configs@[grammar_rank(grammar)].injection_query is Some ==> injection_plan(
                found_regions(
                    grammar,
                    source@,
                    old(self).configs@[grammar_rank(grammar)].injection_content_capture_index,
                    old(self).configs@[grammar_rank(grammar)].injection_language_capture_index,
                ),
                v@,
            )),
    {
        let idx = grammar_index(grammar);
        proof {
            assert(idx as int == grammar_rank(grammar));
        }
        let mut config = self.configs.remove(idx);
        let ghost c0 = config;
        assert(c0 == old(self).configs@[grammar_rank(grammar)]);
        let matches = config.injection_matches(source);
        let content = config.injection_content_capture_index;
        let language = config.injection_language_capture_index;
        assert(content == c0.injection_content_capture_index && language == c0.injection_language_capture_index);
        self.configs.insert(idx, config);
        proof {
            assert forall|i: int| 0 <= i < self.configs@.len() implies (#[trigger] self.configs@[i]).grammar == all_grammars()[i] by {
                if i != idx {
                    assert(self.configs@[i] == old(self).configs@[i]);
                }
            }
            assert forall|g: Grammar| self.injection_setup(g) == old(self).injection_setup(g) by {
                if grammar_rank(g) != idx {
                    assert(self.configs@[grammar_rank(g)] == old(self).configs@[grammar_rank(g)]);
                }
            }
        }
        let ms = match matches {
            None => {
                return Err(HighlightError::Parse);
            },
            Some(None) => {
                return Ok(Vec::new());
            },
            Some(Some(ms)) => ms,
        };
        let ghost mv = raw_matches_view(ms@);
        let mut regions: Vec<InjectionRegion> = Vec::new();
        let mut k: usize = 0;
        while k < ms.len()
            invariant
                k <= ms@.len(),
                mv == raw_matches_view(ms@),
                regions@ == regions_of_matches(source@, mv, content, language, k as int),
            decreases ms@.len() - k,
        {
            match injection_region_for_match(source, &ms[k], content, language) {
                Some(region) => regions.push(region),
                None => {},
            }
            k += 1;
        }
        if regions.len() == 0 {
            proof {
                lemma_empty_plan();
                assert(regions@ =~= Seq::<InjectionRegion>::empty());
            }
            return Ok(regions);
        }
        Ok(plan_injections(&regions))
    }

    /// Highlights injected regions with their grammars and replaces the base
    /// spans over them.
    ///
    /// # Errors
    ///
    /// Returns [`HighlightError::Parse`] when parsing an injected region fails.
    fn apply_injections(&mut self, source: &[u8], base: &mut HighlightResult, injections: Vec<InjectionRegion>) -> (r: Result<(), HighlightError>)
        requires
            old(self).well_formed(),
            disjoint_ordered(old(base).spans@),
            attr_table_ok(attrs_view(old(base).attrs@)),
            attr_ids_valid(old(base).spans@, old(base).attrs@.len() as int),
            spans_within(old(base).spans@, source@.len() as int),
        ensures
            spans_within(final(base).spans@, source@.len() as int),
            final(self).well_formed(),
            final(self).attr_table() == old(self).attr_table(),
            final(self).logs_timing() == old(self).logs_timing(),
            forall|g: Grammar| final(self).injection_setup(g) == old(self).injection_setup(g),
            disjoint_ordered(final(base).spans@),
            attr_table_ok(attrs_view(final(base).attrs@)),
            attr_ids_valid(final(base).spans@, final(base).attrs@.len() as int),
            r is Ok,
            injections@.len() == 0 ==> *final(base) == *old(base),
            injections@.len() > 0 ==> replaced_by_regions(
                source@,
                injections@,
                old(self).attr_table(),
                old(base).spans@,
                attrs_view(old(base).attrs@),
                final(base).spans@,
                attrs_view(final(base).attrs@),
            ),
            attrs_view(old(base).attrs@).is_prefix_of(attrs_view(final(base).attrs@)),
    {
        if injections.len() == 0 {
            return Ok(());
        }
        let mut attrs = crate::spans::clone_attrs(&base.attrs);
        let mut injected: Vec<Span> = Vec::new();
        let ghost table = old(self).attr_table();
        let ghost attrs0 = attrs_view(old(base).attrs@);
        let ghost mut nested_g: Seq<Seq<Span>> = Seq::empty();
        let mut k: usize = 0;
        while k < injections.len()
            invariant
                k <= injections@.len(),
                table == old(self).attr_table(),
                attrs0 == attrs_view(old(base).attrs@),
                nested_g.len() == k,
                forall|i: int|
                    0 <= i < k && region_in(injections@[i], source@.len() as int) ==> base_spans(
                        injections@[i].grammar,
                        source@.subrange(injections@[i].start_byte as int, injections@[i].end_byte as int),
                        table,
                        #[trigger] nested_g[i],
                    ),
                (injected@, attrs_view(attrs@)) == injection_state(source@.len() as int, injections@, table, nested_g, attrs0, k as int),
                self.well_formed(),
                self.attr_table() == old(self).attr_table(),
                self.logs_timing() == old(self).logs_timing(),
                forall|g: Grammar| self.injection_setup(g) == old(self).injection_setup(g),
                disjoint_ordered(base.spans@),
                *base == *old(base),
                attrs_view(old(base).attrs@).is_prefix_of(attrs_view(attrs@)),
                attr_table_ok(attrs_view(attrs@)),
                attr_ids_valid(injected@, attrs@.len() as int),
                spans_within(injected@, source@.len() as int),
            decreases injections@.len() - k,
        {
            let injection = injections[k];
            let ghost prev_nested = nested_g;
            if injection.start_byte <= injection.end_byte && injection.end_byte <= source.len() {
                let nested_source = &source[injection.start_byte..injection.end_byte];
                let nested = match self.highlight_base(nested_source, injection.grammar) {
                    Ok(h) => h,
                    Err(e) => {
                        return Err(e);
                    },
                };
                proof {
                    nested_g = nested_g.push(nested.spans@);
                    assert(nested_source@ == source@.subrange(injection.start_byte as int, injection.end_byte as int));
                    lemma_injection_state_prefix(source@.len() as int, injections@, table, nested_g, prev_nested, attrs0, k as int);
                }
                if attrs.len() <= usize::MAX - nested.attrs.len() {
                    let ghost before = attrs_view(attrs@);
                    let ghost before_inj = injected@;
                    let remap = remap_attr_ids(nested.attrs.as_slice(), &mut attrs);
                    proof {
                        lemma_remap_ids(attrs_view(nested.attrs@), before, nested.attrs@.len() as int);
                        lemma_remap_extends(attrs_view(nested.attrs@), before, nested.attrs@.len() as int);
                        let o = attrs_view(old(base).attrs@);
                        let a = attrs_view(attrs@);
                        assert(a.subrange(0, o.len() as int) =~= a.subrange(0, before.len() as int).subrange(0, o.len() as int));
                    }
                    let mut j: usize = 0;
                    while j < nested.spans.len()
                        invariant
                            j <= nested.spans@.len(),
                            attr_ids_valid(injected@, attrs@.len() as int),
                            remap@.len() == nested.attrs@.len(),
                            remap@.len() > 0 ==> attrs@.len() > 0,
                            forall|i: int| 0 <= i < remap@.len() ==> #[trigger] remap@[i] == 0 || remap@[i] < attrs@.len(),
                            injected@ == before_inj + shifted_spans(nested.spans@, remap@, injection.start_byte, j as int),
                            spans_within(injected@, source@.len() as int),
                            spans_within(nested.spans@, nested_source@.len() as int),
                            nested_source@.len() == injection.end_byte - injection.start_byte,
                            injection.end_byte <= source@.len(),
                        decreases nested.spans@.len() - j,
                    {
                        let span = nested.spans[j];
                        if span.attr_id < remap.len() {
                            injected.push(
                                Span {
                                    attr_id: remap[span.attr_id],
                                    start_byte: span.start_byte.saturating_add(injection.start_byte),
                                    end_byte: span.end_byte.saturating_add(injection.start_byte),
                                },
                            );
                        }
                        j += 1;
                    }
                }
            } else {
                proof {
                    nested_g = nested_g.push(Seq::<Span>::empty());
                    lemma_injection_state_prefix(source@.len() as int, injections@, table, nested_g, prev_nested, attrs0, k as int);
                }
            }
            k += 1;
        }
        let mut ranges: Vec<(usize, usize)> = Vec::new();
        let mut q: usize = 0;
        while q < injections.len()
            invariant
                q <= injections@.len(),
                ranges@ == injection_ranges(injections@.take(q as int)),
            decreases injections@.len() - q,
        {
            ranges.push((injections[q].start_byte, injections[q].end_byte));
            q += 1;
            assert(ranges@ =~= injection_ranges(injections@.take(q as int)));
        }
        assert(injections@.take(q as int) =~= injections@);
        let ghost added = injected@;
        let mut spans = exclude_ranges(base.spans.as_slice(), ranges.as_slice());
        spans.append(&mut injected);
        base.attrs = attrs;
        let normalized = normalize_spans(spans);
        proof {
            let t = choose|t: Seq<Span>| #[trigger] sorted_permutation_of(t, spans@) && normalized@ == sweep_all(t);
            lemma_sweep_disjoint_ordered(t, t.len() as int);
            assert(spans@ == excluded(old(base).spans@, injection_ranges(injections@)) + added);
            let n = base.attrs@.len() as int;
            let ex = excluded(old(base).spans@, injection_ranges(injections@));
            assert(attr_ids_valid(old(base).spans@, n));
            lemma_excluded_ids(old(base).spans@, injection_ranges(injections@), n);
            assert(attr_ids_valid(spans@, n)) by {
                assert forall|i: int| 0 <= i < spans@.len() implies (#[trigger] spans@[i]).attr_id < n by {
                    if i >= ex.len() {
                        assert(spans@[i] == added[i - ex.len()]);
                    }
                }
            }
            lemma_normalized_ids(spans@, t, n);
            lemma_excluded_within(old(base).spans@, injection_ranges(injections@), source@.len() as int);
            assert(spans_within(spans@, source@.len() as int)) by {
                assert forall|i: int| 0 <= i < spans@.len() implies (#[trigger] spans@[i]).end_byte <= source@.len() by {
                    if i >= ex.len() {
                        assert(spans@[i] == added[i - ex.len()]);
                    }
                }
            }
            lemma_normalized_within(spans@, t, source@.len() as int);
            assert(spans_with_injected(old(base).spans@, injections@, added, normalized@));
            assert(injected_with(
                source@,
                injections@,
                table,
                nested_g,
                old(base).spans@,
                attrs0,
                normalized@,
                attrs_view(base.attrs@),
            ));
        }
        base.spans = normalized;
        Ok(())
    }

    /// Highlights a source buffer and returns capture attributes plus byte spans.
    ///
    /// When `grammar` is [`Grammar::ObjectScript`] or
    /// [`Grammar::ObjectScriptRoutine`], language injections are resolved and
    /// applied to injected regions (for example embedded SQL blocks). When
    /// `grammar` is [`Grammar::Xml`], ObjectScript injections are applied to
    /// recognized XML embedded-code regions (for example `<Implementation>` bodies).
    ///
    /// # Errors
    ///
    /// Returns an error if parsing fails.
    pub fn highlight(&mut self, source: &[u8], grammar: Grammar) -> (r: Result<HighlightResult, HighlightError>)
        requires
            old(self).well_formed(),
        ensures
            final(self).well_formed(),
            final(self).attr_table() == old(self).attr_table(),
            final(self).logs_timing() == old(self).logs_timing(),
            forall|g: Grammar| final(self).injection_setup(g) == old(self).injection_setup(g),
            r matches Ok(h) && highlights_as(old(self).injection_setup(grammar), old(self).attr_table(), grammar, source@, h),
    {
        let mut result = match self.highlight_base(source, grammar) {
            Ok(h) => h,
            Err(e) => {
                return Err(e);
            },
        };
        assert(old(self).attr_table().subrange(0, old(self).attr_table().len() as int) =~= old(self).attr_table());
        if grammar == Grammar::ObjectScript || grammar == Grammar::ObjectScriptRoutine || grammar == Grammar::Xml {
            let injections = match self.find_injections(source, grammar) {
                Ok(v) => v,
                Err(e) => {
                    return Err(e);
                },
            };
            let ghost base = result.spans@;
            let ghost plan = injections@;
            match self.apply_injections(source, &mut result, injections) {
                Ok(()) => {},
                Err(e) => {
                    return Err(e);
                },
            }
            assert(injected_from(old(self).injection_setup(grammar), grammar, source@, old(self).attr_table(), base, plan, result.spans@, attrs_view(result.attrs@)));
        }
        Ok(result)
    }

    /// Highlights line-oriented input by joining lines with `\n`.
    ///
    /// # Errors
    ///
    /// Returns the same errors as [`Self::highlight`].
    pub fn highlight_lines(&mut self, lines: &[&str], grammar: Grammar) -> (r: Result<HighlightResult, HighlightError>)
        requires
            old(self).well_formed(),
        ensures
            final(self).well_formed(),
            final(self).attr_table() == old(self).attr_table(),
            final(self).logs_timing() == old(self).logs_timing(),
            forall|g: Grammar| final(self).injection_setup(g) == old(self).injection_setup(g),
            r matches Ok(h) && highlights_as(
                old(self).injection_setup(grammar),
                old(self).attr_table(),
                grammar,
                crate::pipeline::joined_bytes(lines@),
                h,
            ),
    {
        let source = join_lines(lines);
        let bytes = source.as_str().as_bytes();
        assert(bytes@ == crate::pipeline::joined_bytes(lines@));
        self.highlight(bytes, grammar)
    }
}

} // verus!
