use shell_prompt::context::Context;
use shell_prompt::line::{print_all, widgets, Pieces, Widget};
use shell_prompt::widgets::pending::PendingOperations;
use shell_prompt::widgets::shadowenv::shadowenv_active;
use shell_prompt::widgets::stash::count_lines;
use shell_prompt::widgets::{
    exit, path, pending, prompt, ref_info, shadowenv, space_if_git, stash, sync,
};

fn on_branch(head: &str) -> Context {
    Context::new(Some("/repo".to_string()), Some(head.to_string()))
}

const NOTHING_PENDING: PendingOperations = PendingOperations {
    cherry_pick: false,
    merge: false,
    bisect: false,
    rebase_apply: false,
    rebase_merge: false,
};

#[test]
fn prompt_character_is_yellow() {
    assert_eq!(prompt::generate(), "%{\x1b[33m%}%#%{\x1b[0m%}");
    assert_eq!(prompt::gen_jobs(), "%(1j.%j.)");
}

#[test]
fn exit_status_is_shown_unless_success() {
    assert_eq!(exit::generate(Some("1")), "%{\x1b[31m%}1%{\x1b[0m%}");
    assert_eq!(exit::generate(Some("130")), "%{\x1b[31m%}130%{\x1b[0m%}");
    assert_eq!(exit::generate(Some("00")), "%{\x1b[31m%}00%{\x1b[0m%}");
    assert_eq!(exit::generate(Some("0")), "");
    assert_eq!(exit::generate(Some("")), "");
    assert_eq!(exit::generate(None), "%{\x1b[31m%}?%{\x1b[0m%}");
}

#[test]
fn shadowenv_mark_follows_the_data() {
    assert!(shadowenv_active(Some("abc")));
    assert!(shadowenv_active(Some("000")));
    assert!(!shadowenv_active(Some("0000")));
    assert!(!shadowenv_active(Some("0000abc")));
    assert!(!shadowenv_active(Some("")));
    assert!(!shadowenv_active(None));
    assert_eq!(shadowenv::generate(Some("1a2b")), "%{\x1b[90m%}\u{2591}%{\x1b[0m%}");
    assert_eq!(shadowenv::generate(Some("0000:x")), " ");
    assert_eq!(shadowenv::generate(None), " ");
}

#[test]
fn path_is_coloured_by_its_surroundings() {
    assert_eq!(path::gen_path(false, None, "proj", false), "%{\x1b[34m%}proj%{\x1b[0m%}");
    assert_eq!(path::gen_path(true, None, "proj", false), "%{\x1b[32m%}proj%{\x1b[0m%}");
    assert_eq!(
        path::gen_path(false, Some("abc"), "proj", false),
        "%{\x1b[34m\x1b[48;5;238m%}proj%{\x1b[0m%}"
    );
    assert_eq!(path::gen_path(false, Some("0000"), "proj", false), "%{\x1b[34m%}proj%{\x1b[0m%}");
    assert_eq!(
        path::gen_path(true, Some("abc"), "src", true),
        "%{\x1b[32m%}\u{2295}%{\x1b[32m\x1b[48;5;238m%}src%{\x1b[0m%}"
    );
    assert_eq!(path::gen_path(false, None, "", true), "%{\x1b[32m%}\u{2295}%{\x1b[34m%}%{\x1b[0m%}");
}

#[test]
fn gap_only_inside_a_repository() {
    assert_eq!(space_if_git::generate(&Context::new(Some("/repo".to_string()), None)), " ");
    assert_eq!(space_if_git::generate(&Context::new(None, None)), "");
}

#[test]
fn branch_is_shown_by_its_short_name() {
    assert_eq!(ref_info::generate(&on_branch("ref: refs/heads/main")), "\u{1d48e}");
    assert_eq!(ref_info::generate(&on_branch("ref: refs/heads/master")), "\u{1d48e}");
    assert_eq!(ref_info::generate(&on_branch("ref: refs/heads/feature/x")), "feature/x");
    assert_eq!(ref_info::generate(&on_branch("ref: refs/heads/mainline")), "mainline");
    assert_eq!(ref_info::generate(&on_branch("ref: refs/tags/v1")), "refs/tags/v1");
    assert_eq!(ref_info::generate(&on_branch("ref: main")), "\u{1d48e}");
    assert_eq!(ref_info::generate(&on_branch("ref: ")), "");
    assert_eq!(ref_info::generate(&on_branch("ref: ref: refs/heads/refs/heads/x")), "x");
    assert_eq!(
        ref_info::branch(&on_branch("ref: refs/heads/feature/x")),
        Some("feature/x".to_string())
    );
    assert_eq!(ref_info::branch(&on_branch("0123456789abcdef")), None);
    assert_eq!(ref_info::branch(&Context::new(None, None)), None);
}

#[test]
fn detached_head_is_shown_by_eight_characters() {
    assert_eq!(
        ref_info::generate(&on_branch("0123456789abcdef0123456789abcdef01234567")),
        "01234567"
    );
    assert_eq!(ref_info::generate(&on_branch("01234567")), "01234567");
    assert_eq!(ref_info::generate(&on_branch("0123456")), "???");
    assert_eq!(ref_info::generate(&on_branch("")), "???");
    assert_eq!(ref_info::generate(&on_branch("ref:refs/heads/main")), "ref:refs");
    assert_eq!(ref_info::generate(&Context::new(Some("/repo".to_string()), None)), "");
    assert_eq!(ref_info::generate(&Context::new(None, Some("ref: refs/heads/x".to_string()))), "");
}

#[test]
fn pending_operations_are_lettered_in_order() {
    let context = Context::new(Some("/repo".to_string()), None);
    let all = PendingOperations {
        cherry_pick: true,
        merge: true,
        bisect: true,
        rebase_apply: true,
        rebase_merge: true,
    };
    assert_eq!(
        pending::generate(&context, all),
        "%{\x1b[31m%}\u{1d3e}\u{1d39}\u{1d2e}\u{1d3f}\u{2b3}"
    );
    assert_eq!(
        pending::generate(&context, PendingOperations { merge: true, ..NOTHING_PENDING }),
        "%{\x1b[31m%}\u{1d39}"
    );
    assert_eq!(
        pending::generate(
            &context,
            PendingOperations { cherry_pick: true, rebase_merge: true, ..NOTHING_PENDING }
        ),
        "%{\x1b[31m%}\u{1d3e}\u{2b3}"
    );
    assert_eq!(
        pending::generate(&context, PendingOperations { bisect: true, ..NOTHING_PENDING }),
        "%{\x1b[31m%}\u{1d2e}"
    );
    assert_eq!(
        pending::generate(&context, PendingOperations { rebase_apply: true, ..NOTHING_PENDING }),
        "%{\x1b[31m%}\u{1d3f}"
    );
    assert_eq!(pending::generate(&context, NOTHING_PENDING), "");
    assert_eq!(pending::generate(&Context::new(None, None), all), "");
    assert_eq!(pending::CHERRY_PICK_FILE, ".git/CHERRY_PICK_HEAD");
    assert_eq!(pending::MERGE_FILE, ".git/MERGE_HEAD");
    assert_eq!(pending::BISECT_FILE, ".git/BISECT_LOG");
    assert_eq!(pending::REBASE_APPLY_FILE, ".git/rebase-apply");
    assert_eq!(pending::REBASE_MERGE_FILE, ".git/rebase-merge");
}

#[test]
fn lines_are_counted_like_the_standard_library_does() {
    for text in ["", "a", "a\n", "a\nb", "a\nb\n", "\n", "\n\n", "a\r\nb\r\n", "\na", "a\n\nb"] {
        assert_eq!(count_lines(text), text.lines().count(), "for {:?}", text);
    }
    assert_eq!(count_lines("one\ntwo\nthree\n"), 3);
}

#[test]
fn stash_count_is_a_superscript_digit() {
    let context = Context::new(Some("/repo".to_string()), None);
    let superscripts = ["", "\u{b9}", "\u{b2}", "\u{b3}", "\u{2074}", "\u{2075}", "\u{2076}",
        "\u{2077}", "\u{2078}", "\u{2079}"];
    for entries in 1..=9usize {
        let log = "0000 1111 stash entry\n".repeat(entries);
        assert_eq!(
            stash::gen_stash(&context, Some(log.as_str())),
            format!("%{{\x1b[37m%}}{}%{{\x1b[0m%}}", superscripts[entries])
        );
    }
    let many = "entry\n".repeat(12);
    assert_eq!(stash::gen_stash(&context, Some(many.as_str())), "%{\x1b[37m%}\u{2079}%{\x1b[0m%}");
    assert_eq!(stash::gen_stash(&context, Some("entry")), "%{\x1b[37m%}\u{b9}%{\x1b[0m%}");
    assert_eq!(stash::gen_stash(&context, Some("")), "");
    assert_eq!(stash::gen_stash(&context, None), "");
    assert_eq!(stash::gen_stash(&Context::new(None, None), Some("entry\n")), "");
    assert_eq!(stash::STASH_LOG_FILE, ".git/logs/refs/stash");
}

#[test]
fn sync_compares_the_two_refs() {
    let context = on_branch("ref: refs/heads/main");
    assert_eq!(sync::generate(&context, Some("abc123\n"), Some("abc123\n")), "");
    assert_eq!(sync::generate(&context, Some("abc123"), Some("abc123 \n")), "");
    assert_eq!(
        sync::generate(&context, Some("abc123\n"), Some("def456\n")),
        "%{\x1b[31m%} \u{2260}"
    );
    assert_eq!(sync::generate(&context, Some("abc123\n"), None), "%{\x1b[33m%} \u{225f}");
    assert_eq!(sync::generate(&context, None, None), "%{\x1b[33m%} \u{225f}");
    assert_eq!(sync::generate(&context, None, Some("def456\n")), "%{\x1b[31m%} \u{2260}");
    assert_eq!(sync::generate(&context, None, Some("\n")), "");
    assert_eq!(sync::LOCAL_REFS_DIR, ".git/refs/heads/");
    assert_eq!(sync::REMOTE_REFS_DIR, ".git/refs/remotes/origin/");
}

#[test]
fn sync_is_silent_without_a_branch() {
    let detached = on_branch("0123456789abcdef");
    assert_eq!(sync::generate(&detached, Some("a"), Some("b")), "");
    assert_eq!(sync::generate(&detached, None, None), "");
    let outside = Context::new(None, None);
    assert_eq!(sync::generate(&outside, Some("a"), Some("b")), "");
    let headless = Context::new(Some("/repo".to_string()), None);
    assert_eq!(sync::generate(&headless, Some("a"), None), "");
}

#[test]
fn whole_prompt_is_put_together() {
    let pieces = Pieces {
        path: "PATH".to_string(),
        gap: " ".to_string(),
        stash: "S".to_string(),
        async_data: "A".to_string(),
        ref_info: "main".to_string(),
        pending: "N".to_string(),
        sync: "Y".to_string(),
        exit: "E".to_string(),
        prompt: "%#".to_string(),
        jobs: "J".to_string(),
    };
    assert_eq!(print_all(&pieces), "PATH SAmainNY E%#J ");
    let empty = Pieces {
        path: String::new(),
        gap: String::new(),
        stash: String::new(),
        async_data: String::new(),
        ref_info: String::new(),
        pending: String::new(),
        sync: String::new(),
        exit: String::new(),
        prompt: String::new(),
        jobs: String::new(),
    };
    assert_eq!(print_all(&empty), "  ");
}

#[test]
fn pieces_have_their_options() {
    let all = widgets();
    assert_eq!(
        all,
        vec![
            Widget::Path,
            Widget::Stash,
            Widget::AsyncData,
            Widget::RefInfo,
            Widget::Pending,
            Widget::Sync,
            Widget::Exit,
            Widget::Prompt,
            Widget::Jobs,
        ]
    );
    let flags: Vec<&str> = all.iter().map(|widget| widget.flag()).collect();
    assert_eq!(flags, vec!["p", "s", "a", "r", "n", "y", "e", "P", "j"]);
    assert_eq!(Widget::Path.description(), "print path info");
    assert_eq!(Widget::Stash.description(), "print stash info");
    assert_eq!(Widget::AsyncData.description(), "print async data");
    assert_eq!(Widget::RefInfo.description(), "print ref info");
    assert_eq!(Widget::Pending.description(), "print git pending");
    assert_eq!(Widget::Sync.description(), "print git sync status");
    assert_eq!(Widget::Exit.description(), "print exit status");
    assert_eq!(Widget::Prompt.description(), "print prompt char");
    assert_eq!(Widget::Jobs.description(), "print jobs");
}
