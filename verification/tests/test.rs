use http::uri::Uri;
use mdiu::Block;
use mdiu::Document;
use mdiu::Error;
use mdiu::Gemtext;
use mdiu::Html;
use mdiu::Markdown;
use mdiu::ToMarkup;

fn lib_uri(text: &'static str) -> mdiu::Uri {
    // Parse with the http crate, then hand the textual form to the library.
    mdiu::Uri::new(Uri::from_static(text).to_string())
}

fn kitchen_sink() -> Result<Vec<Block>, Error> {
    let lines = Document::new()
        .h1("title".to_string())
        .h2("section".to_string())
        .h3("subsection".to_string())
        .empty()
        .text("text".to_string())
        .link_with_label(lib_uri("one-link"), "one link".to_string())
        .quote("quote".to_string())
        .preformatted("@_@".to_string())
        .text("more text".to_string())
        .preformatted_with_alt("@_@".to_string(), "emoticon".to_string())
        .list_item("one item".to_string())
        .link(lib_uri("no-text"))
        .link_with_label(lib_uri("with-text"), "with text".to_string())
        .list_item("an item".to_string())
        .list_item("another item".to_string())
        .build()?;

    Ok(lines)
}

#[test]
fn gemtext() {
    let expected = r#"# title
## section
### subsection

text
=> one-link one link
> quote
```
@_@
```
more text
```emoticon
@_@
```
* one item
=> no-text
=> with-text with text
* an item
* another item
"#;

    assert_eq!(expected, &kitchen_sink().unwrap().to_markup::<Gemtext>());
}

#[test]
fn html() {
    let expected = r#"<h1>title</h1>
<h2>section</h2>
<h3>subsection</h3>
<p>text</p>
<p><a href="one-link">one link</a></p>
<blockquote>quote</blockquote>
<pre>
@_@
</pre>
<p>more text</p>
<pre>
@_@
</pre>
<li>one item</li>
<ul>
<li><a href="no-text">no-text</a></li>
<li><a href="with-text">with text</a></li>
</ul>
<ul>
<li>an item</li>
<li>another item</li>
</ul>
"#;

    assert_eq!(expected, &kitchen_sink().unwrap().to_markup::<Html>());
}

#[test]
fn markdown() {
    let expected = r#"# title

## section

### subsection

text

[one link](one-link)

> quote

    @_@

more text

    @_@

* one item

* [no-text](no-text)
* [with text](with-text)

* an item
* another item
"#;

    assert_eq!(expected, &kitchen_sink().unwrap().to_markup::<Markdown>());
}
