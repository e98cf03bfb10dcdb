//! Prose: blocks, inline runs and file references.

use usine::markdown::{md_blocks, md_inline, same_path, MdBlock, MdInline};

#[test]
fn matches_agent_paths_against_diff_paths() {
    assert!(same_path("crates/app/src/lib.rs", "crates/app/src/lib.rs"));
    assert!(same_path("src/lib.rs", "crates/app/src/lib.rs"));
    assert!(same_path(
        "./crates/app/src/lib.rs:42",
        "crates/app/src/lib.rs"
    ));
    assert!(same_path(
        "repo/crates/app/src/lib.rs",
        "crates/app/src/lib.rs"
    ));
    assert!(!same_path("", "crates/app/src/lib.rs"));
    assert!(!same_path("other/lib.rs", "crates/app/src/lib.rs"));
}

#[test]
fn splits_headings_lists_and_code() {
    let text = "## Plan\n\nDo it.\nAnd then some.\n\n- one\n- two\n\n1. first\n2. second\n\n```rust\nlet x = 1;\n```";
    let blocks = md_blocks(text);
    assert_eq!(blocks[0], MdBlock::Heading(2, "Plan".into()));
    assert_eq!(
        blocks[1],
        MdBlock::Para(vec!["Do it.".into(), "And then some.".into()])
    );
    assert_eq!(
        blocks[2],
        MdBlock::Bullets(vec!["one".into(), "two".into()])
    );
    assert_eq!(
        blocks[3],
        MdBlock::Ordered(vec!["first".into(), "second".into()])
    );
    assert_eq!(blocks[4], MdBlock::Code("let x = 1;".into()));
    assert_eq!(blocks.len(), 5);
}

#[test]
fn a_wrapped_bullet_stays_one_item() {
    let blocks = md_blocks("- a long bullet\n  that wrapped\n- another");
    assert_eq!(
        blocks[0],
        MdBlock::Bullets(vec!["a long bullet that wrapped".into(), "another".into()])
    );
}

#[test]
fn an_unterminated_fence_shows_as_code_not_as_a_fence() {
    assert_eq!(
        md_blocks("```\nstuff"),
        vec![MdBlock::Code("stuff".into())],
        "the reader should never see a bare ```"
    );
}

#[test]
fn inline_code_and_bold_split_out() {
    assert_eq!(
        md_inline("call `foo()` and **stop**"),
        vec![
            MdInline::Text("call ".into()),
            MdInline::Code("foo()".into()),
            MdInline::Text(" and ".into()),
            MdInline::Strong("stop".into()),
        ]
    );
    assert_eq!(
        md_inline("a ` b"),
        vec![MdInline::Text("a ` b".into())],
        "an unclosed backtick must not eat the line"
    );
}

#[test]
fn file_references_become_chips_and_prose_does_not() {
    assert_eq!(
        md_inline("see src/cache.rs:42, it grows"),
        vec![
            MdInline::Text("see ".into()),
            MdInline::Path("src/cache.rs:42".into()),
            MdInline::Text(", it grows".into()),
        ]
    );
    for prose in ["e.g. this", "about 3.5 times", "Node.js is fine"] {
        assert!(
            md_inline(prose)
                .iter()
                .all(|s| !matches!(s, MdInline::Path(_))),
            "{prose} must stay prose"
        );
    }
}

#[test]
fn non_ascii_and_adversarial_prose_never_panics() {
    let cases = [
        "— em dash — and `côté.rs:12` here",
        "日本語 src/ファイル.rs:3 と **太字**",
        "```\nunclosed café\n",
        "**",
        "`",
        "*.*",
        "a/b.rs:",
        ":::",
        "(src/a.rs:1)",
        "[src/a.rs:1],",
        "naïve `**` mix ** `",
        "####### too many hashes",
        "1. ok\n2.no space\n   deep indent",
        "",
        "\u{200b}zero width",
    ];
    for case in cases {
        let blocks = md_blocks(case);
        for block in &blocks {
            match block {
                MdBlock::Heading(_, l) | MdBlock::Code(l) => {
                    let _ = md_inline(l);
                }
                MdBlock::Para(v) | MdBlock::Bullets(v) | MdBlock::Ordered(v) => {
                    for l in v {
                        let _ = md_inline(l);
                    }
                }
            }
        }
        let _ = md_inline(case);
    }
}

#[test]
fn inline_runs_preserve_every_character() {
    for case in [
        "plain text",
        "a `b` c",
        "x **y** z",
        "src/a.rs:1 tail",
        "— é 日本",
    ] {
        let joined: String = md_inline(case)
            .into_iter()
            .map(|s| match s {
                MdInline::Text(t)
                | MdInline::Code(t)
                | MdInline::Strong(t)
                | MdInline::Path(t) => t,
            })
            .collect();
        let stripped: String = case.replace("**", "").replace('`', "");
        assert_eq!(joined, stripped, "input: {case}");
    }
}

#[test]
fn a_plain_line_is_one_run_and_an_empty_one_none() {
    assert_eq!(
        md_inline("nothing marked here"),
        vec![MdInline::Text("nothing marked here".into())]
    );
    assert_eq!(md_inline(""), vec![]);
    assert_eq!(md_blocks("\n\n  \n"), vec![]);
}

#[test]
fn a_bracketed_reference_keeps_its_brackets_as_text() {
    assert_eq!(
        md_inline("(src/a.rs:1)"),
        vec![
            MdInline::Text("(".into()),
            MdInline::Path("src/a.rs:1".into()),
            MdInline::Text(")".into()),
        ]
    );
}

#[test]
fn seven_hashes_are_no_heading() {
    assert_eq!(
        md_blocks("####### too many"),
        vec![MdBlock::Para(vec!["####### too many".into()])]
    );
    assert_eq!(
        md_blocks("###### deepest"),
        vec![MdBlock::Heading(6, "deepest".into())]
    );
}

#[test]
fn carriage_returns_end_lines_too() {
    assert_eq!(
        md_blocks("one\r\ntwo\r\n\r\nthree"),
        vec![
            MdBlock::Para(vec!["one".into(), "two".into()]),
            MdBlock::Para(vec!["three".into()]),
        ]
    );
}

#[test]
fn blank_text_has_no_blocks() {
    assert_eq!(md_blocks(""), []);
    assert_eq!(md_blocks(" \n\t\r\n"), []);
    assert_eq!(md_blocks("```"), [MdBlock::Code(String::new())]);
    // A mark with nothing behind it is prose.
    assert_eq!(md_blocks("# "), [MdBlock::Para(vec!["#".into()])]);
    assert_eq!(md_blocks("- "), [MdBlock::Para(vec!["-".into()])]);
}
