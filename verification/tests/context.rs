use shell_prompt::context::{
    find_git_head, find_git_root, git_marker, read_head_file, Context, RootSearch,
};

#[test]
fn context_holds_what_was_found() {
    let context = Context::new(Some("/repo".to_string()), Some("ref: refs/heads/main".to_string()));
    assert_eq!(context.git_root(), Some("/repo".to_string()));
    assert_eq!(context.git_head(), Some("ref: refs/heads/main".to_string()));
    assert!(context.in_repository());
    assert_eq!(context.git_root(), context.git_root());
    assert_eq!(context.git_head(), context.git_head());

    let context = Context::new(Some("/repo".to_string()), None);
    assert_eq!(context.git_root(), Some("/repo".to_string()));
    assert_eq!(context.git_head(), None);
}

#[test]
fn context_without_repository_has_no_head() {
    let context = Context::new(None, Some("ref: refs/heads/main".to_string()));
    assert_eq!(context.git_root(), None);
    assert_eq!(context.git_head(), None);
    assert!(!context.in_repository());
    assert_eq!(Context::new(None, None), context);
}

#[test]
fn repository_is_searched_upwards() {
    assert_eq!(git_marker("/a/b"), "/a/b/.git");
    assert_eq!(git_marker("/"), "/.git");
    assert_eq!(
        find_git_root("/a/b".to_string(), true, Some("/a".to_string())),
        RootSearch::Found("/a/b".to_string())
    );
    assert_eq!(
        find_git_root("/a/b".to_string(), false, Some("/a".to_string())),
        RootSearch::Ascend("/a".to_string())
    );
    assert_eq!(find_git_root("/".to_string(), false, None), RootSearch::GaveUp);
    assert_eq!(find_git_root("/".to_string(), true, None), RootSearch::Found("/".to_string()));
    assert_eq!(
        find_git_root("a".to_string(), false, Some("".to_string())),
        RootSearch::Ascend("".to_string())
    );
}

#[test]
fn search_from_a_deep_directory_ends() {
    let parent = |dir: &str| {
        std::path::Path::new(dir).parent().map(|above| above.to_str().unwrap().to_string())
    };
    let mut dir = "/home/u/src/project/deep/er".to_string();
    let mut visited = vec![dir.clone()];
    let found = loop {
        let has_marker = dir == "/home/u/src/project";
        let above = parent(&dir);
        match find_git_root(dir, has_marker, above) {
            RootSearch::Found(root) => break Some(root),
            RootSearch::Ascend(next) => {
                visited.push(next.clone());
                dir = next;
            }
            RootSearch::GaveUp => break None,
        }
    };
    assert_eq!(found, Some("/home/u/src/project".to_string()));
    assert_eq!(
        visited,
        vec!["/home/u/src/project/deep/er", "/home/u/src/project/deep", "/home/u/src/project"]
    );

    let mut dir = "/x/y".to_string();
    let mut steps = 0;
    let found = loop {
        steps += 1;
        let above = parent(&dir);
        match find_git_root(dir, false, above) {
            RootSearch::Found(root) => break Some(root),
            RootSearch::Ascend(next) => dir = next,
            RootSearch::GaveUp => break None,
        }
    };
    assert_eq!(found, None);
    assert_eq!(steps, 3);
}

#[test]
fn head_file_of_a_plain_repository() {
    assert_eq!(find_git_head("/repo", None), Some("/repo/.git/HEAD".to_string()));
    assert_eq!(find_git_head("/", None), Some("/.git/HEAD".to_string()));
}

#[test]
fn head_file_of_a_linked_working_tree() {
    assert_eq!(
        find_git_head("/repo/wt", Some("gitdir: /repo/.git/worktrees/wt\n")),
        Some("/repo/.git/worktrees/wt/HEAD".to_string())
    );
    assert_eq!(
        find_git_head("/repo/wt", Some("gitdir: ../.git/worktrees/wt  \n")),
        Some("/repo/wt/../.git/worktrees/wt/HEAD".to_string())
    );
    assert_eq!(find_git_head("/repo/wt", Some("gitdir: ")), Some("/repo/wt/HEAD".to_string()));
    assert_eq!(find_git_head("/repo/wt", Some("gitdir:/x")), None);
    assert_eq!(find_git_head("/repo/wt", Some(" gitdir: /x")), None);
    assert_eq!(find_git_head("/repo/wt", Some("")), None);
}

#[test]
fn head_is_read_without_trailing_white_space() {
    assert_eq!(
        read_head_file(Some("ref: refs/heads/main\n")),
        Some("ref: refs/heads/main".to_string())
    );
    assert_eq!(read_head_file(Some("0123abcd \r\n")), Some("0123abcd".to_string()));
    assert_eq!(read_head_file(Some("")), Some("".to_string()));
    assert_eq!(read_head_file(None), None);
}
