use shell_prompt::widgets::world_path::{
    format_path, generate, plain_path, split_project, world_info_from_groups, PrintMode,
    WorldInfo, WorldPathError,
};

fn text(value: &str) -> Option<String> {
    Some(value.to_string())
}

#[test]
fn full_mode_keeps_every_component() {
    assert_eq!(format_path("/home/user/projects", PrintMode::Full), "/home/user/projects");
    assert_eq!(format_path("home/user/projects", PrintMode::Full), "home/user/projects");
    assert_eq!(format_path("//home///user/projects/", PrintMode::Full), "/home/user/projects");
    assert_eq!(format_path("single", PrintMode::Full), "single");
    assert_eq!(format_path("/", PrintMode::Full), "/");
    assert_eq!(format_path("///", PrintMode::Full), "/");
    assert_eq!(format_path("", PrintMode::Full), "");
}

#[test]
fn ellipsis_mode_keeps_the_last_component() {
    assert_eq!(format_path("/home/user/projects", PrintMode::Ellipsis), "/\u{2026}/projects");
    assert_eq!(format_path("home/user", PrintMode::Ellipsis), "\u{2026}/user");
    assert_eq!(format_path("/home", PrintMode::Ellipsis), "/home");
    assert_eq!(format_path("home", PrintMode::Ellipsis), "home");
    assert_eq!(format_path("", PrintMode::Ellipsis), "");
}

#[test]
fn compact_mode_shortens_all_but_the_last_component() {
    assert_eq!(format_path("/home/user/projects", PrintMode::Compact), "/h/u/projects");
    assert_eq!(format_path("~/src/github.com/foo", PrintMode::Compact), "~/s/g/foo");
    assert_eq!(format_path("areas/core/shopify", PrintMode::Compact), "a/c/shopify");
    assert_eq!(format_path("/\u{e9}mile//x/", PrintMode::Compact), "/\u{e9}/x");
    assert_eq!(format_path("/home", PrintMode::Compact), "/home");
    assert_eq!(format_path("~/", PrintMode::Compact), "~");
    assert_eq!(format_path("/", PrintMode::Compact), "/");
    assert_eq!(format_path("", PrintMode::Compact), "");
}

#[test]
fn world_directory_is_printed_in_colours() {
    let info = WorldInfo {
        worldlet: None,
        tree: "root".to_string(),
        substrate_path: text("areas/core/shopify"),
        project_path: text("app/models"),
    };
    assert_eq!(
        info.pretty_print(PrintMode::Compact),
        "%{\x1b[1;34m%}//a/c/shopify%{\x1b[22m%}/%{\x1b[34m%}a/models%{\x1b[0m%}"
    );
    assert_eq!(
        info.pretty_print(PrintMode::Full),
        "%{\x1b[1;34m%}//areas/core/shopify%{\x1b[22m%}/%{\x1b[34m%}app/models%{\x1b[0m%}"
    );
    assert_eq!(
        info.pretty_print(PrintMode::Ellipsis),
        "%{\x1b[1;34m%}//\u{2026}/shopify%{\x1b[22m%}/%{\x1b[34m%}\u{2026}/models%{\x1b[0m%}"
    );
}

#[test]
fn worldlet_and_tree_come_before_the_slashes() {
    let info = WorldInfo {
        worldlet: text("foo"),
        tree: "bar".to_string(),
        substrate_path: None,
        project_path: None,
    };
    assert_eq!(
        info.pretty_print(PrintMode::Compact),
        "%{\x1b[35m%}foo%{\x1b[0m%}%{\x1b[32m%}+bar%{\x1b[0m%}%{\x1b[1;34m%}//%{\x1b[22m%}%{\x1b[0m%}"
    );
    let info = WorldInfo {
        worldlet: text("foo"),
        tree: "root".to_string(),
        substrate_path: text("x"),
        project_path: None,
    };
    assert_eq!(
        info.pretty_print(PrintMode::Compact),
        "%{\x1b[35m%}foo%{\x1b[0m%}%{\x1b[1;34m%}//x%{\x1b[22m%}%{\x1b[0m%}"
    );
    let info = WorldInfo {
        worldlet: None,
        tree: "bar".to_string(),
        substrate_path: None,
        project_path: text("p/q"),
    };
    assert_eq!(
        info.pretty_print(PrintMode::Compact),
        "%{\x1b[32m%}+bar%{\x1b[0m%}%{\x1b[1;34m%}//%{\x1b[22m%}%{\x1b[34m%}p/q%{\x1b[0m%}"
    );
    let info = WorldInfo {
        worldlet: None,
        tree: "root".to_string(),
        substrate_path: None,
        project_path: None,
    };
    assert_eq!(info.pretty_print(PrintMode::Full), "%{\x1b[1;34m%}//%{\x1b[22m%}%{\x1b[0m%}");
}

#[test]
fn world_path_is_taken_apart() {
    assert_eq!(
        WorldInfo::try_from_path(
            Some("/home/u"),
            "/home/u/world/trees/root/src/areas/core/shopify/app/models"
        ),
        Ok(WorldInfo {
            worldlet: None,
            tree: "root".to_string(),
            substrate_path: text("areas/core/shopify"),
            project_path: text("app/models"),
        })
    );
    assert_eq!(
        WorldInfo::try_from_path(Some("/home/u"), "/home/u/worldlets/foo/trees/bar/src"),
        Ok(WorldInfo {
            worldlet: text("foo"),
            tree: "bar".to_string(),
            substrate_path: None,
            project_path: None,
        })
    );
    assert_eq!(
        WorldInfo::try_from_path(Some("/home/u"), "/home/u/world/trees/root/src/x/y"),
        Ok(WorldInfo {
            worldlet: None,
            tree: "root".to_string(),
            substrate_path: text("x/y"),
            project_path: None,
        })
    );
    assert_eq!(
        WorldInfo::try_from_path(Some("/home/u"), "/home/u/world/trees/t/src/libraries/a/b"),
        Ok(WorldInfo {
            worldlet: None,
            tree: "t".to_string(),
            substrate_path: text("libraries/a/b"),
            project_path: None,
        })
    );
    assert_eq!(
        WorldInfo::try_from_path(Some("/home/u"), "/home/u/world/trees/t/src/libraries/a/b/"),
        Ok(WorldInfo {
            worldlet: None,
            tree: "t".to_string(),
            substrate_path: text("libraries/a/b"),
            project_path: text(""),
        })
    );
    assert_eq!(
        WorldInfo::try_from_path(Some("/home/u"), "/home/u/world/trees/t/src/areas/a"),
        Ok(WorldInfo {
            worldlet: None,
            tree: "t".to_string(),
            substrate_path: text("areas/a"),
            project_path: None,
        })
    );
    assert_eq!(
        WorldInfo::try_from_path(Some(""), "/world/trees/t/src"),
        Ok(WorldInfo {
            worldlet: None,
            tree: "t".to_string(),
            substrate_path: None,
            project_path: None,
        })
    );
}

#[test]
fn other_paths_are_refused_with_their_reason() {
    assert_eq!(
        WorldInfo::try_from_path(None, "/home/u/world/trees/root/src"),
        Err(WorldPathError::HomeNotSet)
    );
    assert_eq!(
        WorldInfo::try_from_path(Some("/home/u"), "/etc/world/trees/root/src"),
        Err(WorldPathError::NotInHome)
    );
    assert_eq!(
        WorldInfo::try_from_path(Some("/home/u"), "/home/u/src/project"),
        Err(WorldPathError::NotWorldPath)
    );
    assert_eq!(
        WorldInfo::try_from_path(Some("/home/u"), "/home/u/world/trees/root/src/"),
        Err(WorldPathError::NotWorldPath)
    );
    assert_eq!(
        WorldInfo::try_from_path(Some("/home/u"), "/home/u/world/trees//src"),
        Err(WorldPathError::NotWorldPath)
    );
    assert_eq!(
        WorldInfo::try_from_path(Some("/home/u"), "/home/u/worldlets/trees/root/src"),
        Err(WorldPathError::NotWorldPath)
    );
    assert_eq!(
        WorldInfo::try_from_path(Some("/home/u"), "/home/user/world/trees/root/src"),
        Err(WorldPathError::NotWorldPath)
    );
    assert_eq!(WorldPathError::HomeNotSet.message(), "HOME environment variable not set");
    assert_eq!(WorldPathError::NotInHome.message(), "Path is not in HOME directory");
    assert_eq!(WorldPathError::NotWorldPath.message(), "Not a valid world path");
}

#[test]
fn groups_of_a_match_become_a_world_directory() {
    assert_eq!(
        world_info_from_groups(vec![text("/world/trees/t/src"), None, text("t"), None], None),
        Some(WorldInfo {
            worldlet: None,
            tree: "t".to_string(),
            substrate_path: None,
            project_path: None,
        })
    );
    assert_eq!(
        world_info_from_groups(
            vec![text("whole"), text("w"), text("t"), text("areas/a/b/c")],
            Some(vec![text("areas/a/b/c"), text("areas/a/b"), text("c")])
        ),
        Some(WorldInfo {
            worldlet: text("w"),
            tree: "t".to_string(),
            substrate_path: text("areas/a/b"),
            project_path: text("c"),
        })
    );
    assert_eq!(
        world_info_from_groups(vec![text("whole"), text("w"), text("t"), text("x")], None),
        Some(WorldInfo {
            worldlet: text("w"),
            tree: "t".to_string(),
            substrate_path: text("x"),
            project_path: None,
        })
    );
    assert_eq!(world_info_from_groups(vec![text("whole"), None, None, None], None), None);
    assert_eq!(world_info_from_groups(vec![text("whole"), None, text("t")], None), None);
    assert_eq!(world_info_from_groups(Vec::new(), None), None);
    assert_eq!(
        split_project("x".to_string(), Some(vec![text("x"), None, None])),
        ("x".to_string(), None)
    );
    assert_eq!(
        split_project("x".to_string(), Some(vec![text("x"), text("p")])),
        ("x".to_string(), None)
    );
    assert_eq!(
        split_project("areas/a/b".to_string(), Some(vec![text("areas/a/b"), text("areas/a/b"), None])),
        ("areas/a/b".to_string(), None)
    );
}

#[test]
fn working_directory_in_the_world_is_shown_compact() {
    assert_eq!(
        generate(
            Some("/home/u"),
            "/home/u/world/trees/root/src/areas/core/shopify/app/models",
            Some("world/trees/root/src/areas/core/shopify/app/models")
        ),
        "%{\x1b[1;34m%}//a/c/shopify%{\x1b[22m%}/%{\x1b[34m%}a/models%{\x1b[0m%}"
    );
    assert_eq!(
        generate(Some("/home/u"), "/home/u/worldlets/foo/trees/bar/src/some/where", None),
        "%{\x1b[35m%}foo%{\x1b[0m%}%{\x1b[32m%}+bar%{\x1b[0m%}%{\x1b[1;34m%}//s/where%{\x1b[22m%}%{\x1b[0m%}"
    );
}

#[test]
fn working_directory_elsewhere_is_shown_from_home() {
    assert_eq!(
        generate(Some("/home/u"), "/home/u/src/proj", Some("src/proj")),
        "%{\x1b[34m%}~/s/proj%{\x1b[0m%}"
    );
    assert_eq!(generate(Some("/home/u"), "/home/u", Some("")), "%{\x1b[34m%}~%{\x1b[0m%}");
    assert_eq!(generate(Some("/home/u/"), "/home/u/x", Some("x")), "%{\x1b[34m%}~/x%{\x1b[0m%}");
    assert_eq!(generate(Some("/home/u"), "/etc/nginx", None), "%{\x1b[34m%}/e/nginx%{\x1b[0m%}");
    assert_eq!(
        generate(Some("/home/user"), "/home/user2/x", None),
        "%{\x1b[34m%}/h/u/x%{\x1b[0m%}"
    );
    assert_eq!(
        generate(Some(""), "/etc/nginx", Some("etc/nginx")),
        "%{\x1b[34m%}/e/nginx%{\x1b[0m%}"
    );
    assert_eq!(
        generate(None, "/home/u/src/proj", Some("src/proj")),
        "%{\x1b[34m%}/h/u/s/proj%{\x1b[0m%}"
    );
    assert_eq!(generate(None, "/", None), "%{\x1b[34m%}/%{\x1b[0m%}");
    assert_eq!(plain_path("/home/u/a/b", Some("a/b")), "%{\x1b[34m%}~/a/b%{\x1b[0m%}");
    assert_eq!(plain_path("/opt/a/b", None), "%{\x1b[34m%}/o/a/b%{\x1b[0m%}");
}
