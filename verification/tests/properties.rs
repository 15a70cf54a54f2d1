use mdiu::update_list_state;
use mdiu::Block;
use mdiu::Content;
use mdiu::Document;
use mdiu::Error;
use mdiu::Gemtext;
use mdiu::Html;
use mdiu::ListState;
use mdiu::Markdown;
use mdiu::ToMarkup;
use mdiu::Uri;

#[test]
fn content_validation() {
    assert_eq!(Err(Error::EmptyContent), Content::new("".to_string()).map(|_| ()));
    assert_eq!(Err(Error::InvalidContent), Content::new("a\nb".to_string()).map(|_| ()));
    assert_eq!(Err(Error::InvalidContent), Content::new("a\rb".to_string()).map(|_| ()));
    assert!(Content::new("a b".to_string()).is_ok());

    assert_eq!(Err(Error::EmptyContent), mdiu::validate(""));
    assert_eq!(Err(Error::InvalidContent), mdiu::validate("a\nb"));
    assert_eq!(Err(Error::InvalidContent), mdiu::validate("a\rb"));
    assert_eq!(Ok(()), mdiu::validate("a b"));
}

#[test]
fn content_unchecked_and_validate() {
    let good = Content::new_unchecked("some text".to_string());
    assert_eq!(Ok(()), good.validate());
    assert_eq!("some text", good.as_str());

    let bad = Content::new_unchecked("".to_string());
    assert_eq!(Err(Error::EmptyContent), bad.validate());

    let broken = Content::new_unchecked("a\nb".to_string());
    assert_eq!(Err(Error::InvalidContent), broken.validate());
}

#[test]
fn error_messages_name_the_kind() {
    assert_ne!(Error::EmptyContent.message(), Error::InvalidContent.message());
    assert!(Error::EmptyContent.message().contains("empty"));
    assert!(Error::InvalidContent.message().contains("newline"));
}

#[test]
fn render_is_deterministic() {
    let blocks = Document::new()
        .h1("my gemlog".to_string())
        .text("welcome".to_string())
        .link(Uri::new("index.gmi".to_string()))
        .build()
        .unwrap();

    assert_eq!(blocks.as_slice().to_markup::<Gemtext>(), blocks.as_slice().to_markup::<Gemtext>());
    assert_eq!(blocks.as_slice().to_markup::<Html>(), blocks.as_slice().to_markup::<Html>());
    assert_eq!(blocks.as_slice().to_markup::<Markdown>(), blocks.as_slice().to_markup::<Markdown>());
}

#[test]
fn three_links_share_one_container() {
    let blocks = Document::new()
        .link(Uri::new("a".to_string()))
        .link(Uri::new("b".to_string()))
        .link(Uri::new("c".to_string()))
        .build()
        .unwrap();

    let html = blocks.to_markup::<Html>();
    assert_eq!(
        "<ul>\n<li><a href=\"a\">a</a></li>\n<li><a href=\"b\">b</a></li>\n<li><a href=\"c\">c</a></li>\n</ul>\n",
        html
    );
    assert_eq!(1, html.matches("<ul>").count());
    assert_eq!(1, html.matches("</ul>").count());
}

#[test]
fn isolated_link_stays_unwrapped() {
    let blocks = Document::new()
        .text("before".to_string())
        .link(Uri::new("a".to_string()))
        .text("after".to_string())
        .build()
        .unwrap();

    let html = blocks.to_markup::<Html>();
    assert_eq!("<p>before</p>\n<p><a href=\"a\">a</a></p>\n<p>after</p>\n", html);
    assert!(!html.contains("<ul>"));
    assert!(!html.contains("</ul>"));
}

#[test]
fn markdown_runs_separated_by_blank_lines() {
    let blocks = Document::new()
        .text("before".to_string())
        .list_item("one".to_string())
        .list_item("two".to_string())
        .text("after".to_string())
        .build()
        .unwrap();

    assert_eq!("before\n\n* one\n* two\n\nafter\n", blocks.to_markup::<Markdown>());
}

#[test]
fn validate_twice_agrees() {
    let good = Document::new().h1("title".to_string()).text("body".to_string());
    assert_eq!(good.validate(), good.validate());
    assert_eq!(Ok(()), good.validate());

    let bad = Document::new().text("".to_string()).quote("a\nb".to_string());
    assert_eq!(bad.validate(), bad.validate());
    assert_eq!(Err(Error::EmptyContent), bad.validate());
}

#[test]
fn build_surfaces_first_failure() {
    let doc = Document::new()
        .h1("fine".to_string())
        .quote("bad\nquote".to_string())
        .text("".to_string());
    assert_eq!(Err(Error::InvalidContent), doc.build().map(|_| ()));

    let doc = Document::new()
        .text("".to_string())
        .quote("bad\nquote".to_string());
    assert_eq!(Err(Error::EmptyContent), doc.build().map(|_| ()));
}

#[test]
fn invalid_label_and_alt_are_caught() {
    let doc = Document::new().link_with_label(Uri::new("a".to_string()), "x\ny".to_string());
    assert_eq!(Err(Error::InvalidContent), doc.build().map(|_| ()));

    let doc = Document::new().preformatted_with_alt("@_@".to_string(), "".to_string());
    assert_eq!(Err(Error::EmptyContent), doc.build().map(|_| ()));

    // The preformatted main text is exempt from the no-line-break rule.
    let doc = Document::new().preformatted("a\nb".to_string());
    assert!(doc.build().is_ok());
}

#[test]
fn empty_document_renders_empty() {
    let blocks = Document::default().build().unwrap();
    assert_eq!("", blocks.as_slice().to_markup::<Gemtext>());
    assert_eq!("", blocks.as_slice().to_markup::<Html>());
    assert_eq!("", blocks.to_markup::<Markdown>());
}

#[test]
fn markdown_indents_every_preformatted_line() {
    let blocks = Document::new().preformatted("a\nb\nc".to_string()).build().unwrap();
    assert_eq!("    a\n    b\n    c\n", blocks.to_markup::<Markdown>());

    let crlf = Document::new().preformatted("a\r\nb".to_string()).build().unwrap();
    assert_eq!("    a\n    b\n", crlf.to_markup::<Markdown>());

    let trailing = Document::new().preformatted("a\n".to_string()).build().unwrap();
    assert_eq!("    a\n", trailing.to_markup::<Markdown>());
}

#[test]
fn builder_prefix_can_be_reused() {
    let mut builder = Document::new();
    builder = builder.h1("my site".to_string());

    let homepage = builder.clone().build().unwrap();
    assert_eq!("# my site\n", homepage.to_markup::<Gemtext>());

    let article = builder.h2("my article".to_string()).build().unwrap();
    assert_eq!("# my site\n## my article\n", article.to_markup::<Gemtext>());
}

#[test]
fn list_state_transition_table() {
    let cases = [
        (ListState::NotInList, false, ListState::NotInList),
        (ListState::NotInList, true, ListState::Entering),
        (ListState::Entering, true, ListState::InList),
        (ListState::InList, true, ListState::InList),
        (ListState::Entering, false, ListState::Exiting),
        (ListState::InList, false, ListState::Exiting),
        (ListState::Exiting, true, ListState::Entering),
        (ListState::Exiting, false, ListState::NotInList),
    ];
    for (start, same, end) in cases {
        let mut state = start;
        update_list_state(&mut state, same);
        assert_eq!(end, state);
    }
}

#[test]
fn accessors_and_mutators() {
    let mut link = mdiu::Link::new(Uri::new("/".to_string()), None);
    assert_eq!("/", link.uri().as_str());
    assert!(link.label().is_none());
    *link.label_mut() = Some(Content::new("home".to_string()).unwrap());
    assert_eq!("home", link.label().as_ref().unwrap().as_str());
    *link.uri_mut() = Uri::new("index.gmi".to_string());
    assert_eq!("index.gmi", link.uri().as_str());

    let mut pre = mdiu::Preformatted::new("@_@".to_string(), None);
    assert_eq!("@_@", pre.text());
    assert!(pre.alt().is_none());
    *pre.alt_mut() = Some(Content::new("emoticon".to_string()).unwrap());
    assert_eq!("emoticon", pre.alt().as_ref().unwrap().as_str());
    *pre.text_mut() = "o_o".to_string();
    assert_eq!("o_o", pre.text());

    let uri = Uri::new("gemini://example.org/".to_string());
    assert_eq!("gemini://example.org/", uri.as_str());
    assert_eq!("gemini://example.org/", uri.into_string());

    let content = Content::new("text".to_string()).unwrap();
    assert_eq!("text", content.clone().into_string());
}

#[test]
fn link_from_bare_uri() {
    let link = mdiu::Link::from(Uri::new("index.gmi".to_string()));
    assert_eq!("index.gmi", link.uri().as_str());
    assert!(link.label().is_none());
}

#[test]
fn blocks_can_be_assembled_directly() {
    let h1 = Block::Heading(mdiu::Level::One, Content::new("my gemlog".to_string()).unwrap());
    let text = Block::Text(Content::new("welcome".to_string()).unwrap());
    let doc = vec![h1, text];

    assert_eq!("# my gemlog\nwelcome\n", doc.to_markup::<Gemtext>());
}
