//! The working directory as a place in the world tree.

use vstd::prelude::*;
use vstd::string::*;

use crate::formatting::{
    zero_width, zw, BOLD_OFF, FG_BLUE, FG_BOLD_BLUE, FG_GREEN, FG_MAGENTA, SGR_RESET,
};
use crate::text::{
    chars_of, has_prefix, joined_with, push_range, range_is, starts_with_at, str_of,
    string_of_range, text_of,
};

verus! {

/// A directory of the world tree, taken apart.
#[derive(Debug, PartialEq, Eq)]
pub struct WorldInfo {
    /// The worldlet that the tree belongs to, if it is not the world itself.
    pub worldlet: Option<String>,
    /// The name of the tree.
    pub tree: String,
    /// The path below the sources of the tree, up to its project if it
    /// lies in one.
    pub substrate_path: Option<String>,
    /// The path inside the project.
    pub project_path: Option<String>,
}

/// A directory of the world tree as mathematical values.
pub struct WorldInfoView {
    pub worldlet: Option<Seq<char>>,
    pub tree: Seq<char>,
    pub substrate_path: Option<Seq<char>>,
    pub project_path: Option<Seq<char>>,
}

impl View for WorldInfo {
    type V = WorldInfoView;

    open spec fn view(&self) -> WorldInfoView {
        WorldInfoView {
            worldlet: text_of(self.worldlet),
            tree: self.tree@,
            substrate_path: text_of(self.substrate_path),
            project_path: text_of(self.project_path),
        }
    }
}

/// How much of a path is shown.
#[derive(Debug, Clone, Copy, PartialEq, Eq)]
pub enum PrintMode {
    /// Every component, whole.
    Full,
    /// The last component, after a sign for the others.
    Ellipsis,
    /// The last component, after the first character of each of the others.
    Compact,
}

/// The name of the tree that is not shown.
pub const ROOT_TREE: &'static str = "root";

/// What stands for the components that `PrintMode::Ellipsis` leaves out.
pub const ELLIPSIS: &'static str = "\u{2026}/";

/// What a path has been read as, up to some place: the components that are
/// over, and the one that is under way. A component is a run of characters
/// without a separator, and an empty run is none.
pub open spec fn scanned(path: Seq<char>) -> (Seq<Seq<char>>, Seq<char>)
    decreases path.len(),
{
    if path.len() == 0 {
        (Seq::empty(), Seq::empty())
    } else {
        let (over, under_way) = scanned(path.drop_last());
        if path.last() == '/' {
            (
                if under_way.len() > 0 {
                    over.push(under_way)
                } else {
                    over
                },
                Seq::empty(),
            )
        } else {
            (over, under_way.push(path.last()))
        }
    }
}

/// The components of `path`: what stands between its separators, without
/// what is empty.
pub open spec fn components(path: Seq<char>) -> Seq<Seq<char>> {
    let (over, under_way) = scanned(path);
    if under_way.len() > 0 {
        over.push(under_way)
    } else {
        over
    }
}

/// Whether `part` holds no separator.
pub open spec fn no_separator(part: Seq<char>) -> bool {
    forall|i: int| 0 <= i < part.len() ==> part[i] != '/'
}

/// Whether `part` can be a component: it is not empty and holds no
/// separator.
pub open spec fn is_name(part: Seq<char>) -> bool {
    part.len() > 0 && no_separator(part)
}

/// What has been read of a path are components, and what is under way
/// holds no separator.
proof fn lemma_scanned_holds_names(path: Seq<char>)
    ensures
        forall|k: int| 0 <= k < scanned(path).0.len() ==> is_name(#[trigger] scanned(path).0[k]),
        no_separator(scanned(path).1),
    decreases path.len(),
{
    if path.len() > 0 {
        lemma_scanned_holds_names(path.drop_last());
        let (over, under_way) = scanned(path.drop_last());
        if path.last() == '/' {
            if under_way.len() > 0 {
                assert forall|k: int| 0 <= k < over.push(under_way).len() implies is_name(
                    #[trigger] over.push(under_way)[k],
                ) by {
                    if k < over.len() {
                        assert(over.push(under_way)[k] == over[k]);
                    }
                }
            }
        } else {
            let longer = under_way.push(path.last());
            assert forall|i: int| 0 <= i < longer.len() implies longer[i] != '/' by {
                if i < under_way.len() {
                    assert(longer[i] == under_way[i]);
                }
            }
        }
    }
}

/// Every component of a path is a run of at least one character that holds
/// no separator.
pub proof fn lemma_components_are_names(path: Seq<char>)
    ensures
        forall|k: int| 0 <= k < components(path).len() ==> is_name(#[trigger] components(path)[k]),
{
    lemma_scanned_holds_names(path);
    let (over, under_way) = scanned(path);
    if under_way.len() > 0 {
        assert forall|k: int| 0 <= k < over.push(under_way).len() implies is_name(
            #[trigger] over.push(under_way)[k],
        ) by {
            if k < over.len() {
                assert(over.push(under_way)[k] == over[k]);
            }
        }
    }
}

/// The first character of each of `parts`, as a text of its own.
pub open spec fn initials(parts: Seq<Seq<char>>) -> Seq<Seq<char>> {
    Seq::new(parts.len(), |i: int| seq![parts[i][0]])
}

/// The components `parts` as one text, as `mode` shows them.
pub open spec fn shortened(parts: Seq<Seq<char>>, mode: PrintMode) -> Seq<char> {
    if parts.len() > 1 {
        match mode {
            PrintMode::Full => joined_with(parts, seq!['/']),
            PrintMode::Ellipsis => ELLIPSIS@ + parts.last(),
            PrintMode::Compact => joined_with(initials(parts.drop_last()), seq!['/']) + seq!['/']
                + parts.last(),
        }
    } else {
        joined_with(parts, seq!['/'])
    }
}

/// The path `path` as `mode` shows it: its components, shortened, after a
/// separator if `path` begins with one.
pub open spec fn formatted_path(path: Seq<char>, mode: PrintMode) -> Seq<char> {
    if path.len() > 0 && path[0] == '/' {
        seq!['/'] + shortened(components(path), mode)
    } else {
        shortened(components(path), mode)
    }
}

/// The views of the texts `parts`.
pub open spec fn texts(parts: Seq<Vec<char>>) -> Seq<Seq<char>> {
    Seq::new(parts.len(), |i: int| parts[i]@)
}

/// The components of the path `chars`.
fn split_components(chars: &Vec<char>) -> (parts: Vec<Vec<char>>)
    ensures
        texts(parts@) == components(chars@),
        forall|k: int| 0 <= k < parts.len() ==> (#[trigger] parts[k]).len() > 0,
{
    let mut parts: Vec<Vec<char>> = Vec::new();
    let mut under_way: Vec<char> = Vec::new();
    let mut i: usize = 0;
    proof {
        assert(texts(parts@) =~= scanned(chars@.take(0)).0);
    }
    while i < chars.len()
        invariant
            i <= chars.len(),
            texts(parts@) == scanned(chars@.take(i as int)).0,
            under_way@ == scanned(chars@.take(i as int)).1,
            forall|k: int| 0 <= k < parts.len() ==> (#[trigger] parts[k]).len() > 0,
        decreases chars.len() - i,
    {
        proof {
            assert(chars@.take(i + 1).drop_last() == chars@.take(i as int));
        }
        let ghost before = texts(parts@);
        if chars[i] == '/' {
            if under_way.len() > 0 {
                let ghost finished = under_way@;
                parts.push(under_way);
                under_way = Vec::new();
                proof {
                    assert(texts(parts@) =~= before.push(finished));
                }
            }
        } else {
            under_way.push(chars[i]);
        }
        i += 1;
    }
    proof {
        assert(chars@.take(i as int) == chars@);
    }
    if under_way.len() > 0 {
        let ghost before = texts(parts@);
        let ghost finished = under_way@;
        parts.push(under_way);
        proof {
            assert(texts(parts@) =~= before.push(finished));
        }
    }
    parts
}

/// Appends the texts `parts[..count]` to `out`, with a separator between
/// each two; in `short` form only the first character of each.
fn push_joined(out: &mut String, parts: &Vec<Vec<char>>, count: usize, short: bool)
    requires
        count <= parts.len(),
        forall|k: int| 0 <= k < parts.len() ==> (#[trigger] parts[k]).len() > 0,
    ensures
        final(out)@ == old(out)@ + joined_with(
            if short {
                initials(texts(parts@).take(count as int))
            } else {
                texts(parts@).take(count as int)
            },
            seq!['/'],
        ),
{
    let ghost all = if short {
        initials(texts(parts@).take(count as int))
    } else {
        texts(parts@).take(count as int)
    };
    let mut k: usize = 0;
    proof {
        assert(all.take(0) =~= Seq::<Seq<char>>::empty());
        assert(out@ =~= old(out)@ + joined_with(all.take(0), seq!['/']));
    }
    while k < count
        invariant
            k <= count <= parts.len(),
            all.len() == count,
            all == if short {
                initials(texts(parts@).take(count as int))
            } else {
                texts(parts@).take(count as int)
            },
            forall|j: int| 0 <= j < parts.len() ==> (#[trigger] parts[j]).len() > 0,
            out@ == old(out)@ + joined_with(all.take(k as int), seq!['/']),
        decreases count - k,
    {
        let ghost before = out@;
        if k > 0 {
            out.push('/');
        }
        if short {
            out.push(parts[k][0]);
        } else {
            push_range(out, &parts[k], 0, parts[k].len());
        }
        proof {
            let part = all[k as int];
            assert(parts[k as int]@.subrange(0, parts[k as int].len() as int) == parts[k as int]@);
            assert(all.take(k + 1).drop_last() == all.take(k as int));
            assert(all.take(k + 1).last() == part);
            if k > 0 {
                assert(out@ == before + seq!['/'] + part);
                assert(out@ =~= old(out)@ + (joined_with(all.take(k as int), seq!['/']) + seq!['/']
                    + part));
            } else {
                assert(out@ == before + part);
                assert(joined_with(all.take(0), seq!['/']) =~= Seq::<char>::empty());
                assert(out@ =~= old(out)@ + part);
            }
        }
        k += 1;
    }
    proof {
        assert(all.take(count as int) == all);
    }
}

/// The path `path` as `mode` shows it.
pub fn format_path(path: &str, mode: PrintMode) -> (r: String)
    ensures
        r@ == formatted_path(path@, mode),
{
    let chars = chars_of(path);
    let parts = split_components(&chars);
    let mut out = String::new();
    if chars.len() > 0 && chars[0] == '/' {
        out.push('/');
    }
    let ghost lead = out@;
    let count = parts.len();
    proof {
        assert(texts(parts@).take(count as int) == texts(parts@));
    }
    if count > 1 {
        match mode {
            PrintMode::Full => {
                push_joined(&mut out, &parts, count, false);
            },
            PrintMode::Ellipsis => {
                out.append(ELLIPSIS);
                push_range(&mut out, &parts[count - 1], 0, parts[count - 1].len());
                proof {
                    let last = parts[count - 1]@;
                    assert(last.subrange(0, last.len() as int) == last);
                    assert(out@ =~= lead + (ELLIPSIS@ + last));
                }
            },
            PrintMode::Compact => {
                push_joined(&mut out, &parts, count - 1, true);
                out.push('/');
                push_range(&mut out, &parts[count - 1], 0, parts[count - 1].len());
                proof {
                    let last = parts[count - 1]@;
                    assert(last.subrange(0, last.len() as int) == last);
                    assert(texts(parts@).take(count - 1) == texts(parts@).drop_last());
                    assert(out@ =~= lead + (joined_with(
                        initials(texts(parts@).drop_last()),
                        seq!['/'],
                    ) + seq!['/'] + last));
                }
            },
        }
    } else {
        push_joined(&mut out, &parts, count, false);
    }
    proof {
        assert(lead + shortened(components(path@), mode) =~= formatted_path(path@, mode));
    }
    out
}

/// `text`, after the end of all colours unless nothing stands before it.
pub open spec fn after(before: Seq<char>, text: Seq<char>) -> Seq<char> {
    if before.len() == 0 {
        before + text
    } else {
        before + zero_width(SGR_RESET@) + text
    }
}

/// What is shown of a directory of the world tree: the worldlet in
/// magenta; the tree in green after `+`, unless it is `root`; `//` and the
/// substrate path in bold blue; and the project path in plain blue, after a
/// separator if a substrate path stands before it.
pub open spec fn pretty(info: WorldInfoView, mode: PrintMode) -> Seq<char> {
    let worldlet = match info.worldlet {
        Some(name) => zero_width(FG_MAGENTA@) + name,
        None => Seq::empty(),
    };
    let tree = if info.tree != ROOT_TREE@ {
        after(worldlet, zero_width(FG_GREEN@) + seq!['+'] + info.tree)
    } else {
        worldlet
    };
    let slashes = after(tree, zero_width(FG_BOLD_BLUE@) + seq!['/', '/']);
    let substrate = match info.substrate_path {
        Some(path) => slashes + formatted_path(path, mode),
        None => slashes,
    } + zero_width(BOLD_OFF@);
    let project = match info.project_path {
        Some(path) => if info.substrate_path is Some {
            substrate + seq!['/'] + zero_width(FG_BLUE@) + formatted_path(path, mode)
        } else {
            substrate + zero_width(FG_BLUE@) + formatted_path(path, mode)
        },
        None => substrate,
    };
    project + zero_width(SGR_RESET@)
}

/// Appends the end of all colours to `out` unless `out` is empty.
fn push_reset_after(out: &mut String)
    ensures
        final(out)@ == after(old(out)@, Seq::empty()),
{
    if !out.as_str().is_empty() {
        let reset = zw(SGR_RESET);
        out.append(reset.as_str());
    }
}

impl WorldInfo {
    /// The directory in colours, with its paths shown as `mode` says.
    pub fn pretty_print(&self, mode: PrintMode) -> (r: String)
        ensures
            r@ == pretty(self@, mode),
    {
        let mut out = String::new();
        match &self.worldlet {
            Some(name) => {
                let magenta = zw(FG_MAGENTA);
                out.append(magenta.as_str());
                out.append(name.as_str());
            },
            None => {},
        }
        let ghost worldlet = out@;
        let tree_chars = chars_of(self.tree.as_str());
        proof {
            assert(tree_chars@.subrange(0, tree_chars.len() as int) == tree_chars@);
        }
        if !range_is(&tree_chars, 0, tree_chars.len(), ROOT_TREE) {
            push_reset_after(&mut out);
            let green = zw(FG_GREEN);
            out.append(green.as_str());
            out.push('+');
            out.append(self.tree.as_str());
            proof {
                assert(out@ =~= after(worldlet, zero_width(FG_GREEN@) + seq!['+'] + self.tree@));
            }
        }
        let ghost tree = out@;
        push_reset_after(&mut out);
        let bold_blue = zw(FG_BOLD_BLUE);
        out.append(bold_blue.as_str());
        out.push('/');
        out.push('/');
        proof {
            assert(out@ =~= after(tree, zero_width(FG_BOLD_BLUE@) + seq!['/', '/']));
        }
        match &self.substrate_path {
            Some(path) => {
                let shown = format_path(path.as_str(), mode);
                out.append(shown.as_str());
            },
            None => {},
        }
        let bold_off = zw(BOLD_OFF);
        out.append(bold_off.as_str());
        let ghost substrate = out@;
        match &self.project_path {
            Some(path) => {
                if self.substrate_path.is_some() {
                    out.push('/');
                }
                let blue = zw(FG_BLUE);
                out.append(blue.as_str());
                let shown = format_path(path.as_str(), mode);
                out.append(shown.as_str());
                proof {
                    if self.substrate_path is Some {
                        assert(out@ =~= substrate + seq!['/'] + zero_width(FG_BLUE@)
                            + formatted_path(path@, mode));
                    } else {
                        assert(out@ =~= substrate + zero_width(FG_BLUE@) + formatted_path(
                            path@,
                            mode,
                        ));
                    }
                }
            },
            None => {},
        }
        let reset = zw(SGR_RESET);
        out.append(reset.as_str());
        out
    }
}

/// Why a path is no directory of the world tree.
#[derive(Debug, Clone, Copy, PartialEq, Eq)]
pub enum WorldPathError {
    /// The home directory is not known.
    HomeNotSet,
    /// The path does not begin with the home directory.
    NotInHome,
    /// The path does not have the form of a directory of the world tree.
    NotWorldPath,
}

impl WorldPathError {
    /// The error in words.
    pub fn message(&self) -> (r: &'static str)
        ensures
            r@ == match self {
                WorldPathError::HomeNotSet => "HOME environment variable not set"@,
                WorldPathError::NotInHome => "Path is not in HOME directory"@,
                WorldPathError::NotWorldPath => "Not a valid world path"@,
            },
    {
        match self {
            WorldPathError::HomeNotSet => "HOME environment variable not set",
            WorldPathError::NotInHome => "Path is not in HOME directory",
            WorldPathError::NotWorldPath => "Not a valid world path",
        }
    }
}

/// The form of a directory of the world tree, from the home directory on:
/// the world or a worldlet, a tree, its sources and a path below them.
pub const WORLD_PATTERN: &'static str =
    "^/(?:world|worldlets/([^/]+))/trees/([^/]+)/src(?:/(.+))?$";

/// The form of a path below the sources that leads into a project: the
/// project, which has three components, and a path inside it.
pub const PROJECT_PATTERN: &'static str = "^((?:areas|libraries)/[^/]+/[^/]+)(?:/(.*))?$";

/// What a search for the regular expression `pattern` in `text` finds, as
/// the crate `regex` defines it: `None` where `pattern` is no regular
/// expression or matches nowhere; else, for the leftmost match, the text
/// of each group, the whole match first, with `None` for a group that took
/// no part in the match.
pub uninterp spec fn regex_groups(pattern: Seq<char>, text: Seq<char>) -> Option<
    Seq<Option<Seq<char>>>,
>;

/// The views of the groups `groups`.
pub open spec fn group_texts(groups: Seq<Option<String>>) -> Seq<Option<Seq<char>>> {
    Seq::new(groups.len(), |i: int| text_of(groups[i]))
}

/// The view of what a search found.
pub open spec fn found_view(found: Option<Vec<Option<String>>>) -> Option<
    Seq<Option<Seq<char>>>,
> {
    match found {
        Some(groups) => Some(group_texts(groups@)),
        None => None,
    }
}

/// `regex::Regex::new` and `Regex::captures`: compiles `pattern`, searches
/// `text` for it and hands out the text of every group of the match. The
/// result depends on the two texts alone.
#[verifier::external_body]
fn capture_groups(pattern: &str, text: &str) -> (r: Option<Vec<Option<String>>>)
    ensures
        found_view(r) == regex_groups(pattern@, text@),
{
    let regex = regex::Regex::new(pattern).ok()?;
    let captures = regex.captures(text)?;
    Some(captures.iter().map(|group| group.map(|found| found.as_str().to_string())).collect())
}

/// The substrate path and the project path that a path below the sources
/// comes apart into, given what the search for a project found in it:
/// without a project all of it is substrate path.
pub open spec fn project_split(substrate: Seq<char>, found: Option<Seq<Option<Seq<char>>>>) -> (
    Seq<char>,
    Option<Seq<char>>,
) {
    match found {
        Some(groups) => if groups.len() == 3 && groups[1] is Some {
            (groups[1]->0, groups[2])
        } else {
            (substrate, None)
        },
        None => (substrate, None),
    }
}

/// The directory of the world tree that the groups `groups` of a match of
/// `WORLD_PATTERN` describe: the worldlet, the tree, and the path below
/// the sources, for which `project` is what the search for a project found.
pub open spec fn world_info_of(
    groups: Seq<Option<Seq<char>>>,
    project: Option<Seq<Option<Seq<char>>>>,
) -> Option<WorldInfoView> {
    if groups.len() == 4 && groups[2] is Some {
        match groups[3] {
            Some(below) => Some(
                WorldInfoView {
                    worldlet: groups[1],
                    tree: groups[2]->0,
                    substrate_path: Some(project_split(below, project).0),
                    project_path: project_split(below, project).1,
                },
            ),
            None => Some(
                WorldInfoView {
                    worldlet: groups[1],
                    tree: groups[2]->0,
                    substrate_path: None,
                    project_path: None,
                },
            ),
        }
    } else {
        None
    }
}

/// The directory of the world tree that the path `relative`, which counts
/// from the home directory, names, if it names one.
pub open spec fn parsed_world(relative: Seq<char>) -> Option<WorldInfoView> {
    match regex_groups(WORLD_PATTERN@, relative) {
        Some(groups) => world_info_of(
            groups,
            if groups.len() == 4 && groups[3] is Some {
                regex_groups(PROJECT_PATTERN@, groups[3]->0)
            } else {
                None
            },
        ),
        None => None,
    }
}

/// The directory of the world tree that `path` names for the home
/// directory `home`, or why it names none.
pub open spec fn world_of_path(home: Option<Seq<char>>, path: Seq<char>) -> Result<
    WorldInfoView,
    WorldPathError,
> {
    match home {
        Some(home) => if has_prefix(path, home) {
            match parsed_world(path.skip(home.len() as int)) {
                Some(info) => Ok(info),
                None => Err(WorldPathError::NotWorldPath),
            }
        } else {
            Err(WorldPathError::NotInHome)
        },
        None => Err(WorldPathError::HomeNotSet),
    }
}

/// A second text like `text`.
fn copy_text(text: &Option<String>) -> (r: Option<String>)
    ensures
        text_of(r) == text_of(*text),
{
    match text {
        Some(text) => Some(text.clone()),
        None => None,
    }
}

/// Takes apart a path below the sources: `found` is what the search for
/// `PROJECT_PATTERN` found in `below`.
pub fn split_project(below: String, found: Option<Vec<Option<String>>>) -> (r: (
    String,
    Option<String>,
))
    ensures
        (r.0@, text_of(r.1)) == project_split(below@, found_view(found)),
{
    match found {
        Some(groups) => {
            if groups.len() == 3 {
                match copy_text(&groups[1]) {
                    Some(project) => (project, copy_text(&groups[2])),
                    None => (below, None),
                }
            } else {
                (below, None)
            }
        },
        None => (below, None),
    }
}

/// Puts together the directory of the world tree that a match of
/// `WORLD_PATTERN` with the groups `groups` describes. `project` is what
/// the search for `PROJECT_PATTERN` found in the path below the sources,
/// which is the last of the groups.
pub fn world_info_from_groups(
    groups: Vec<Option<String>>,
    project: Option<Vec<Option<String>>>,
) -> (r: Option<WorldInfo>)
    ensures
        match r {
            Some(info) => Some(info@),
            None => None,
        } == world_info_of(group_texts(groups@), found_view(project)),
{
    if groups.len() != 4 {
        return None;
    }
    let tree = match copy_text(&groups[2]) {
        Some(tree) => tree,
        None => {
            return None;
        },
    };
    let worldlet = copy_text(&groups[1]);
    match copy_text(&groups[3]) {
        Some(below) => {
            let (substrate_path, project_path) = split_project(below, project);
            Some(WorldInfo { worldlet, tree, substrate_path: Some(substrate_path), project_path })
        },
        None => Some(WorldInfo { worldlet, tree, substrate_path: None, project_path: None }),
    }
}

impl WorldInfo {
    /// Reads `path` as a directory of the world tree below the home
    /// directory `home`.
    pub fn try_from_path(home: Option<&str>, path: &str) -> (r: Result<WorldInfo, WorldPathError>)
        ensures
            match r {
                Ok(info) => Ok(info@),
                Err(error) => Err(error),
            } == world_of_path(str_of(home), path@),
    {
        let home = match home {
            Some(home) => home,
            None => {
                return Err(WorldPathError::HomeNotSet);
            },
        };
        let chars = chars_of(path);
        let prefix = chars_of(home);
        proof {
            assert(chars@.skip(0) == chars@);
        }
        if !starts_with_at(&chars, 0, &prefix) {
            return Err(WorldPathError::NotInHome);
        }
        let relative = string_of_range(&chars, prefix.len(), chars.len());
        proof {
            assert(chars@.subrange(prefix.len() as int, chars.len() as int) == chars@.skip(
                prefix.len() as int,
            ));
        }
        let groups = match capture_groups(WORLD_PATTERN, relative.as_str()) {
            Some(groups) => groups,
            None => {
                return Err(WorldPathError::NotWorldPath);
            },
        };
        let project = if groups.len() == 4 {
            match &groups[3] {
                Some(below) => capture_groups(PROJECT_PATTERN, below.as_str()),
                None => None,
            }
        } else {
            None
        };
        match world_info_from_groups(groups, project) {
            Some(info) => Ok(info),
            None => Err(WorldPathError::NotWorldPath),
        }
    }
}

/// The variable that holds the home directory.
pub const HOME_VAR: &'static str = "HOME";

/// What stands for the home directory at the beginning of a path.
pub const HOME_MARK: &'static str = "~/";

/// The path `pwd` as it is written for a reader: from `~/` on where it
/// lies below the home directory, of which `below_home` is what is left.
pub open spec fn written_path(pwd: Seq<char>, below_home: Option<Seq<char>>) -> Seq<char> {
    match below_home {
        Some(rest) => HOME_MARK@ + rest,
        None => pwd,
    }
}

/// What counts as left of a path below the home directory `home`: what
/// `below` says, but nothing where no home directory is known or where it
/// is the empty path.
pub open spec fn below_known_home(home: Option<Seq<char>>, below: Option<Seq<char>>) -> Option<
    Seq<char>,
> {
    match home {
        Some(home) => if home.len() > 0 {
            below
        } else {
            None
        },
        None => None,
    }
}

/// What is shown of a working directory outside the world tree: the path
/// `written`, compact, in blue.
pub open spec fn plain_text(written: Seq<char>) -> Seq<char> {
    zero_width(FG_BLUE@) + formatted_path(written, PrintMode::Compact) + zero_width(SGR_RESET@)
}

/// What is shown of the working directory `pwd` for the home directory
/// `home`: the directory of the world tree, compact, where it is one; else
/// its path, written from the home directory on where it lies there, of
/// which `below` is then what is left.
pub open spec fn world_path_text(
    home: Option<Seq<char>>,
    pwd: Seq<char>,
    below: Option<Seq<char>>,
) -> Seq<char> {
    match world_of_path(home, pwd) {
        Ok(info) => pretty(info, PrintMode::Compact),
        Err(_) => plain_text(written_path(pwd, below_known_home(home, below))),
    }
}

/// Shows a working directory outside the world tree. `below_home` is what
/// is left of `pwd` below the home directory, if it lies there.
pub fn plain_path(pwd: &str, below_home: Option<&str>) -> (r: String)
    ensures
        r@ == plain_text(written_path(pwd@, str_of(below_home))),
{
    let written = match below_home {
        Some(rest) => {
            let mut written = String::from_str(HOME_MARK);
            written.append(rest);
            written
        },
        None => String::from_str(pwd),
    };
    let mut out = zw(FG_BLUE);
    let shown = format_path(written.as_str(), PrintMode::Compact);
    out.append(shown.as_str());
    let reset = zw(SGR_RESET);
    out.append(reset.as_str());
    out
}

/// Shows the working directory `pwd`, given the home directory if it is
/// known, and what is left of `pwd` below the home directory if it lies
/// there, whole components counted.
pub fn generate(home: Option<&str>, pwd: &str, below_home: Option<&str>) -> (r: String)
    ensures
        r@ == world_path_text(str_of(home), pwd@, str_of(below_home)),
{
    match WorldInfo::try_from_path(home, pwd) {
        Ok(info) => info.pretty_print(PrintMode::Compact),
        Err(_) => {
            let known = match home {
                Some(home) => home.unicode_len() > 0,
                None => false,
            };
            if known {
                plain_path(pwd, below_home)
            } else {
                plain_path(pwd, None)
            }
        },
    }
}

} // verus!
