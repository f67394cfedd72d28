use gemclient::gemtext::{Block, BlockParser, Span};

fn bytes<'a>(body: &'a [u8], span: &Span) -> &'a [u8] {
    &body[span.start..span.end]
}

fn collect(body: &[u8]) -> Vec<Block> {
    let mut parser = BlockParser::new(body.to_vec());
    let mut blocks = Vec::new();
    while let Some(block) = parser.next_block() {
        blocks.push(block);
    }
    blocks
}

#[test]
fn link_with_display_name() {
    let body = b"=> gemini://example.org/ Example";
    let blocks = collect(body);
    assert_eq!(blocks.len(), 1);
    match &blocks[0] {
        Block::Link(link) => {
            assert_eq!(bytes(body, &link.url), b"gemini://example.org/");
            assert_eq!(bytes(body, link.name.as_ref().unwrap()), b"Example");
        }
        _ => panic!("expected a link block"),
    }
}

#[test]
fn link_without_display_name() {
    let body = b"=> gemini://example.org/";
    let blocks = collect(body);
    assert_eq!(blocks.len(), 1);
    match &blocks[0] {
        Block::Link(link) => {
            assert_eq!(bytes(body, &link.url), b"gemini://example.org/");
            assert!(link.name.is_none());
        }
        _ => panic!("expected a link block"),
    }
}

#[test]
fn link_skips_multibyte_whitespace_before_the_url() {
    // U+3000 (ideographic space) stands between the marker and the URL.
    let body = b"=> \xe3\x80\x80gemini://h/ name";
    let blocks = collect(body);
    match &blocks[0] {
        Block::Link(link) => {
            assert_eq!(bytes(body, &link.url), b"gemini://h/");
            assert_eq!(bytes(body, link.name.as_ref().unwrap()), b"name");
        }
        _ => panic!("expected a link block"),
    }
}

#[test]
fn link_display_name_runs_to_the_end_of_the_line() {
    let body = b"=> u Name\nnext\n";
    let blocks = collect(body);
    assert_eq!(blocks.len(), 2);
    match &blocks[0] {
        Block::Link(link) => {
            assert_eq!(bytes(body, &link.url), b"u");
            // the display name takes the remainder of the line, its
            // terminator included
            assert_eq!(bytes(body, link.name.as_ref().unwrap()), b"Name\n");
        }
        _ => panic!("expected a link block"),
    }
}

#[test]
fn fenced_block_with_alt_label() {
    let body = b"```alt\ncode\n```\n";
    let mut parser = BlockParser::new(body.to_vec());
    match parser.next_block() {
        Some(Block::Preformatted(pre)) => {
            assert_eq!(bytes(body, pre.alt_content.as_ref().unwrap()), b"alt");
            assert_eq!(bytes(body, &pre.content), b"code\n");
        }
        _ => panic!("expected a preformatted block"),
    }
    // the closing fence line is fully consumed
    assert_eq!(parser.position(), body.len());
    assert!(parser.next_block().is_none());
}

#[test]
fn fence_without_alt_or_close_runs_to_the_end() {
    let body = b"```\nraw bytes";
    let blocks = collect(body);
    assert_eq!(blocks.len(), 1);
    match &blocks[0] {
        Block::Preformatted(pre) => {
            assert!(pre.alt_content.is_none());
            assert_eq!(bytes(body, &pre.content), b"raw bytes");
        }
        _ => panic!("expected a preformatted block"),
    }
}

#[test]
fn closing_fence_in_the_middle_of_a_line() {
    let body = b"```\nxy\nz```tail\nafter";
    let blocks = collect(body);
    assert_eq!(blocks.len(), 2);
    match &blocks[0] {
        Block::Preformatted(pre) => assert_eq!(bytes(body, &pre.content), b"xy\nz"),
        _ => panic!("expected a preformatted block"),
    }
    match &blocks[1] {
        Block::Text(text) => assert_eq!(bytes(body, &text.content), b"after"),
        _ => panic!("expected a text block"),
    }
}

#[test]
fn empty_body_yields_no_blocks() {
    let mut parser = BlockParser::new(Vec::new());
    assert!(parser.next_block().is_none());
}

#[test]
fn headings_carry_level_and_trimmed_name() {
    let body = b"# One\n##  Two \n### Three\n####Four\n";
    let blocks = collect(body);
    assert_eq!(blocks.len(), 4);
    match &blocks[0] {
        Block::Header(h) => {
            assert_eq!(h.level, 1);
            assert_eq!(bytes(body, &h.name), b"One");
        }
        _ => panic!("expected a heading"),
    }
    match &blocks[1] {
        Block::Header(h) => {
            assert_eq!(h.level, 2);
            assert_eq!(bytes(body, &h.name), b"Two");
        }
        _ => panic!("expected a heading"),
    }
    match &blocks[2] {
        Block::Header(h) => {
            assert_eq!(h.level, 3);
            assert_eq!(bytes(body, &h.name), b"Three");
        }
        _ => panic!("expected a heading"),
    }
    // four markers make an ordinary text line
    match &blocks[3] {
        Block::Text(text) => assert_eq!(bytes(body, &text.content), b"####Four"),
        _ => panic!("expected a text block"),
    }
}

#[test]
fn consecutive_list_lines_accumulate_into_one_block() {
    let body = b"* one\n* two\nrest\n";
    let blocks = collect(body);
    assert_eq!(blocks.len(), 2);
    match &blocks[0] {
        Block::List(list) => {
            assert_eq!(list.items.len(), 2);
            assert_eq!(bytes(body, &list.items[0]), b"one");
            assert_eq!(bytes(body, &list.items[1]), b"two");
        }
        _ => panic!("expected a list block"),
    }
    match &blocks[1] {
        Block::Text(text) => assert_eq!(bytes(body, &text.content), b"rest"),
        _ => panic!("expected a text block"),
    }
}

#[test]
fn quote_line_is_trimmed_after_the_marker() {
    let body = b"> quoted text \n";
    let blocks = collect(body);
    assert_eq!(blocks.len(), 1);
    match &blocks[0] {
        Block::Quote(quote) => assert_eq!(bytes(body, &quote.content), b"quoted text"),
        _ => panic!("expected a quote block"),
    }
}

#[test]
fn whitespace_only_lines_are_empty_blocks() {
    let body = b"\n   \nx\n";
    let blocks = collect(body);
    assert_eq!(blocks.len(), 3);
    assert!(matches!(blocks[0], Block::Empty));
    assert!(matches!(blocks[1], Block::Empty));
    assert!(matches!(blocks[2], Block::Text(_)));
}

#[test]
fn text_lines_exclude_their_terminators() {
    let body = b"hello\nworld";
    let blocks = collect(body);
    assert_eq!(blocks.len(), 2);
    match (&blocks[0], &blocks[1]) {
        (Block::Text(a), Block::Text(b)) => {
            assert_eq!(bytes(body, &a.content), b"hello");
            assert_eq!(bytes(body, &b.content), b"world");
        }
        _ => panic!("expected two text blocks"),
    }
}

#[test]
fn tab_before_line_feed_extends_the_terminator() {
    let body = b"abc\t\nnext\n";
    let mut parser = BlockParser::new(body.to_vec());
    match parser.next_block() {
        Some(Block::Text(text)) => assert_eq!(bytes(body, &text.content), b"abc"),
        _ => panic!("expected a text block"),
    }
    // the two terminator bytes are consumed with the line
    assert_eq!(parser.position(), 5);
}

#[test]
fn extents_of_yielded_blocks_reconstruct_the_buffer() {
    let body: &[u8] =
        b"# Title\n\n=> gemini://example.org/ Example\n* one\n* two\n> quote\n```alt\ncode\n```\ntail";
    let mut parser = BlockParser::new(body.to_vec());
    let mut rebuilt: Vec<u8> = Vec::new();
    let mut previous = parser.position();
    assert_eq!(previous, 0);
    while parser.next_block().is_some() {
        let current = parser.position();
        assert!(current > previous);
        rebuilt.extend_from_slice(&body[previous..current]);
        previous = current;
    }
    assert_eq!(rebuilt, body.to_vec());
}
