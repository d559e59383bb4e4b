use syntax_color::grammar::Grammar;
use syntax_color::highlighter::SpanHighlighter;
use syntax_color::spans::HighlightResult;

fn has_capture_for_text(
    result: &HighlightResult,
    source: &[u8],
    capture_name: &str,
    expected_text: &[u8],
) -> bool {
    let attr_id = match result
        .attrs
        .iter()
        .find(|attr| attr.capture_name == capture_name)
        .map(|attr| attr.id)
    {
        Some(id) => id,
        None => return false,
    };
    result.spans.iter().any(|span| {
        span.attr_id == attr_id && &source[span.start_byte..span.end_byte] == expected_text
    })
}

#[test]
fn lib_highlights_numeric_literal_as_number() {
    let source = br#"
Class Demo.Highlight
{
  ClassMethod Main()
  {
    set x = 42
  }
}
"#;
    let mut highlighter = SpanHighlighter::new().expect("failed to build highlighter");
    let result = highlighter
        .highlight(source, Grammar::ObjectScript)
        .expect("failed to highlight");
    assert!(
        has_capture_for_text(&result, source, "number", b"42"),
        "expected highlighted span for numeric literal"
    );
}

#[test]
fn test_highlights_numeric_literal_as_number() {
    let source = br#"
        Class Demo.Highlight
        {
            ClassMethod Main()
                {
                    set x = 42
                }
        }
        "#;
    let mut highlighter = SpanHighlighter::new().expect("failed to build highlighter");
    let result = highlighter
        .highlight(source, Grammar::ObjectScript)
        .expect("failed to highlight");
    assert!(
        has_capture_for_text(&result, source, "number", b"42"),
        "expected highlighted span for numeric literal"
    );
}

#[test]
fn lib_highlights_sql_keyword() {
    let source = b"SELECT 42 FROM Demo";
    let mut highlighter = SpanHighlighter::new().expect("failed to build highlighter");
    let result = highlighter
        .highlight(source, Grammar::Sql)
        .expect("failed to highlight SQL");
    assert!(
        has_capture_for_text(&result, source, "keyword", b"SELECT"),
        "expected SELECT to be highlighted as keyword"
    );
}

#[test]
fn test_highlights_sql_keyword() {
    let source = b"SELECT 42 FROM Demo";
    let mut highlighter = SpanHighlighter::new().expect("failed to build highlighter");
    let result = highlighter
        .highlight(source, Grammar::Sql)
        .expect("failed to highlight SQL");
    assert!(
        has_capture_for_text(&result, source, "keyword", b"SELECT"),
        "expected SELECT to be highlighted as keyword"
    );
}

fn sqlquery_source() -> &'static [u8] {
    br#"
Class Test
{
  Query ListEmployees() As %SQLQuery
  {
SELECT ID,Name FROM Employee
  }
}
"#
}

#[test]
fn lib_objectscript_sqlquery_body_is_highlighted_as_sql() {
    let source = sqlquery_source();
    let mut highlighter = SpanHighlighter::new().expect("failed to build highlighter");
    let result = highlighter
        .highlight(source, Grammar::ObjectScript)
        .expect("failed to highlight ObjectScript with SQL injection");
    assert!(
        has_capture_for_text(&result, source, "keyword", b"SELECT"),
        "expected SQL SELECT in %SQLQuery body to be highlighted as keyword"
    );
}

#[test]
fn test_objectscript_sqlquery_body_is_highlighted_as_sql() {
    let source = sqlquery_source();
    let mut highlighter = SpanHighlighter::new().expect("failed to build highlighter");
    let result = highlighter
        .highlight(source, Grammar::ObjectScript)
        .expect("failed to highlight ObjectScript with SQL injection");
    assert!(
        has_capture_for_text(&result, source, "keyword", b"SELECT"),
        "expected SQL SELECT in %SQLQuery body to be highlighted as keyword"
    );
}

#[test]
fn lib_highlights_python_number() {
    let source = b"def f(x):\n    return x + 1\n";
    let mut highlighter = SpanHighlighter::new().expect("failed to build highlighter");
    let result = highlighter
        .highlight(source, Grammar::Python)
        .expect("failed to highlight Python");
    assert!(
        has_capture_for_text(&result, source, "number", b"1"),
        "expected numeric literal to be highlighted in Python"
    );
}

#[test]
fn test_highlights_python_number() {
    let source = b"def f(x):\n    return x + 1\n";
    let mut highlighter = SpanHighlighter::new().expect("failed to build highlighter");
    let result = highlighter
        .highlight(source, Grammar::Python)
        .expect("failed to highlight Python");
    assert!(
        has_capture_for_text(&result, source, "number", b"1"),
        "expected numeric literal to be highlighted in Python"
    );
}

#[test]
fn lib_highlights_markdown_heading() {
    let source = b"# Heading\n";
    let mut highlighter = SpanHighlighter::new().expect("failed to build highlighter");
    let result = highlighter
        .highlight(source, Grammar::Markdown)
        .expect("failed to highlight Markdown");
    assert!(
        has_capture_for_text(&result, source, "text.title", b"Heading"),
        "expected heading text to be highlighted in Markdown"
    );
}

#[test]
fn test_highlights_markdown_heading() {
    let source = b"# Heading\n";
    let mut highlighter = SpanHighlighter::new().expect("failed to build highlighter");
    let result = highlighter
        .highlight(source, Grammar::Markdown)
        .expect("failed to highlight Markdown");
    assert!(
        has_capture_for_text(&result, source, "text.title", b"Heading"),
        "expected heading text to be highlighted in Markdown"
    );
}

#[test]
fn lib_mdx_falls_back_to_sql_keyword_highlighting() {
    let source = b"SELECT 1 FROM Cube";
    let mut highlighter = SpanHighlighter::new().expect("failed to build highlighter");
    let result = highlighter
        .highlight(source, Grammar::Mdx)
        .expect("failed to highlight MDX fallback");
    assert!(
        has_capture_for_text(&result, source, "keyword", b"SELECT"),
        "expected MDX fallback to highlight SQL keywords"
    );
}

#[test]
fn test_mdx_falls_back_to_sql_keyword_highlighting() {
    let source = b"SELECT 1 FROM Cube";
    let mut highlighter = SpanHighlighter::new().expect("failed to build highlighter");
    let result = highlighter
        .highlight(source, Grammar::Mdx)
        .expect("failed to highlight MDX fallback");
    assert!(
        has_capture_for_text(&result, source, "keyword", b"SELECT"),
        "expected MDX fallback to highlight SQL keywords"
    );
}

fn xml_source() -> &'static [u8] {
    br#"
<Export>
  <Class name="Demo.Sample">
    <Method name="Run">
      <Implementation><![CDATA[
 set x = 42
]]></Implementation>
    </Method>
  </Class>
</Export>
"#
}

#[test]
fn lib_xml_implementation_cdata_is_highlighted_as_objectscript() {
    let source = xml_source();
    let mut highlighter = SpanHighlighter::new().expect("failed to build highlighter");
    let result = highlighter
        .highlight(source, Grammar::Xml)
        .expect("failed to highlight XML with ObjectScript injection");
    assert!(
        has_capture_for_text(&result, source, "number", b"42"),
        "expected injected ObjectScript numeric literal to be highlighted"
    );
}

#[test]
fn test_xml_implementation_cdata_is_highlighted_as_objectscript() {
    let source = xml_source();
    let mut highlighter = SpanHighlighter::new().expect("failed to build highlighter");
    let result = highlighter
        .highlight(source, Grammar::Xml)
        .expect("failed to highlight XML with ObjectScript injection");
    assert!(
        has_capture_for_text(&result, source, "number", b"42"),
        "expected injected ObjectScript numeric literal to be highlighted"
    );
}

#[test]
fn mdx_is_highlighted_as_sql() {
    let source = b"SELECT name, 42 FROM people WHERE id = 'x'";
    let mut highlighter = SpanHighlighter::new().expect("failed to build highlighter");
    let mdx = highlighter.highlight(source, Grammar::Mdx).expect("failed to highlight");
    let sql = highlighter.highlight(source, Grammar::Sql).expect("failed to highlight");
    assert!(!sql.spans.is_empty());
    assert_eq!(mdx.spans, sql.spans);
    let names = |r: &HighlightResult| -> Vec<(usize, String)> {
        r.attrs.iter().map(|a| (a.id, a.capture_name.clone())).collect()
    };
    assert_eq!(names(&mdx), names(&sql));
}
