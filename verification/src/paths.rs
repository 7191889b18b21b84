//! Finding a thread again by its path.

use crate::items::ListItemType;
use vstd::prelude::*;

verus! {

/// Where the last name of a text starts: after its last slash.
pub open spec fn last_name_start(path: Seq<char>) -> int
    decreases path.len(),
{
    if path.len() == 0 || path.last() == '/' {
        path.len() as int
    } else {
        last_name_start(path.drop_last())
    }
}

/// The names of a text that slashes set apart, without those that are empty and those that are `.`.
pub open spec fn slash_names(path: Seq<char>) -> Seq<Seq<char>>
    decreases path.len(),
{
    if path.len() == 0 {
        Seq::empty()
    } else {
        proof {
            lemma_last_name_start(path);
        }
        let start = last_name_start(path);
        let name = path.skip(start);
        let before = if start == 0 {
            Seq::empty()
        } else {
            slash_names(path.take(start - 1))
        };
        if name.len() == 0 || name == seq!['.'] {
            before
        } else {
            before.push(name)
        }
    }
}

/// A path by its components: whether it starts at the root, whether it starts with the name `.`,
/// and the names that follow, but for further names `.`.
#[verifier::ext_equal]
pub struct PathComponents {
    pub rooted: bool,
    pub dotted: bool,
    pub names: Seq<Seq<char>>,
}

/// The components of a path whose separator is the slash.
pub open spec fn components(path: Seq<char>) -> PathComponents {
    PathComponents {
        rooted: path.len() > 0 && path[0] == '/',
        dotted: path.len() > 0 && path[0] == '.' && (path.len() == 1 || path[1] == '/'),
        names: slash_names(path),
    }
}

/// The path has no backslash, no drive letter with a colon at its start, and no two slashes there.
/// So the slash alone separates its names, and it has no prefix, on Unix and on Windows.
pub open spec fn is_slash_path(path: Seq<char>) -> bool {
    &&& forall|i: int| 0 <= i < path.len() ==> #[trigger] path[i] != '\\'
    &&& path.len() > 1 ==> path[1] != ':'
    &&& path.len() > 1 ==> !(path[0] == '/' && path[1] == '/')
}

/// The character is an ASCII letter.
pub open spec fn is_ascii_letter(c: char) -> bool {
    'A' as u32 <= c as u32 <= 'Z' as u32 || 'a' as u32 <= c as u32 <= 'z' as u32
}

/// The path with what Unix and Windows do not both tell apart made alike: a slash for each
/// backslash, and a small letter for each ASCII capital before a colon, as in the name of a drive.
pub open spec fn folded_text(path: Seq<char>) -> Seq<char> {
    Seq::new(
        path.len(),
        |i: int|
            if path[i] == '\\' {
                '/'
            } else if i + 1 < path.len() && path[i + 1] == ':' && 'A' as u32 <= path[i] as u32
                <= 'Z' as u32 {
                (path[i] as u32 + 32) as char
            } else {
                path[i]
            },
    )
}

/// The components that a path has once backslashes count as slashes, drives are written small, and
/// a drive at the start of the path is a name of its own.
pub open spec fn folded_components(path: Seq<char>) -> PathComponents {
    let text = folded_text(path);
    if text.len() > 1 && is_ascii_letter(text[0]) && text[1] == ':' {
        components(text.take(2).push('/') + text.skip(2))
    } else {
        components(text)
    }
}

/// What holds of every comparison of two paths by their components. A path is the same as itself.
/// Paths that are the same have the same folded components, whether or not a backslash separates
/// names and a path can start with a drive. Paths that only the slash separates are the same
/// exactly if their components are.
pub open spec fn is_components_verdict(a: Seq<char>, b: Seq<char>, same: bool) -> bool {
    &&& a == b ==> same
    &&& same ==> folded_components(a) == folded_components(b)
    &&& is_slash_path(a) && is_slash_path(b) ==> same == (components(a) == components(b))
}

/// `Path::eq` of the standard library, which compares paths by their components. A path equals
/// itself. `Path::components` takes away repeated and trailing separators and each name `.` but one
/// at the start of the path, and does nothing else to a name, so equal paths have equal names.
/// Which names these are depends on the platform: on Windows a backslash separates names, and a
/// letter and a colon may be a drive, whose case does not count; on Unix neither holds. The clause
/// on folded components holds either way. For paths without backslashes and prefixes the
/// documentation says which paths have the same components, and the last clause states that. Of
/// other paths whose folded components are the same it is left open whether they are equal, but
/// that a path equals itself.
#[verifier::external_body]
fn std_same_path(a: &str, b: &str) -> (same: bool)
    ensures
        is_components_verdict(a@, b@, same),
{
    std::path::Path::new(a) == std::path::Path::new(b)
}

/// The path is written plainly: it is made of names set apart by single slashes, with one slash
/// before them if the path is absolute. No name is `.`, none holds a backslash, and the path does
/// not start with a drive letter and a colon.
pub open spec fn is_plain_path(path: Seq<char>) -> bool {
    &&& path.len() > 0
    &&& path.len() > 1 ==> path[1] != ':'
    &&& forall|i: int| 0 <= i < path.len() ==> #[trigger] path[i] != '\\'
    &&& forall|i: int|
        0 <= i < path.len() && #[trigger] path[i] == '/' ==> i + 1 < path.len() && path[i + 1]
            != '/'
    &&& forall|i: int|
        0 <= i < path.len() && #[trigger] path[i] == '.' && (i == 0 || path[i - 1] == '/') ==> i + 1
            < path.len() && path[i + 1] != '/'
}

/// What holds of every comparison of two paths: what holds of a comparison by components, and that
/// paths that are both written plainly are the same only if they are written the same.
pub open spec fn is_path_verdict(a: Seq<char>, b: Seq<char>, same: bool) -> bool {
    &&& is_components_verdict(a, b, same)
    &&& is_plain_path(a) && is_plain_path(b) ==> same == (a == b)
}

/// The last name of a text is its longest end without a slash.
pub proof fn lemma_last_name_start(path: Seq<char>)
    ensures
        0 <= last_name_start(path) <= path.len(),
        last_name_start(path) > 0 ==> path[last_name_start(path) - 1] == '/',
        forall|i: int| last_name_start(path) <= i < path.len() ==> #[trigger] path[i] != '/',
    decreases path.len(),
{
    if path.len() > 0 && path.last() != '/' {
        let front = path.drop_last();
        lemma_last_name_start(front);
        let start = last_name_start(front);
        if start > 0 {
            assert(front[start - 1] == path[start - 1]);
        }
        assert forall|i: int| start <= i < path.len() implies #[trigger] path[i] != '/' by {
            if i < front.len() {
                assert(front[i] == path[i]);
            }
        }
    }
}

/// The names with single slashes between them, and one before them if there is a root.
spec fn joined(rooted: bool, names: Seq<Seq<char>>) -> Seq<char>
    decreases names.len(),
{
    if names.len() == 0 {
        Seq::empty()
    } else {
        let before = joined(rooted, names.drop_last());
        if names.len() > 1 || rooted {
            before.push('/') + names.last()
        } else {
            before + names.last()
        }
    }
}

/// A plainly written path can be put together again from its components.
proof fn lemma_plain_path_is_joined(path: Seq<char>)
    requires
        is_plain_path(path),
    ensures
        slash_names(path).len() > 0,
        joined(components(path).rooted, slash_names(path)) == path,
    decreases path.len(),
{
    lemma_last_name_start(path);
    let start = last_name_start(path);
    let name = path.skip(start);
    let rooted = components(path).rooted;
    if start > 0 {
        assert(path[start - 1] == '/');
    }
    assert(name.len() > 0);
    assert(name != seq!['.']) by {
        if name == seq!['.'] {
            assert(name.len() == 1 && path.len() == start + 1);
            assert(name[0] == path[start]);
        }
    }
    let before = if start == 0 {
        Seq::empty()
    } else {
        slash_names(path.take(start - 1))
    };
    assert(slash_names(path) == before.push(name));
    assert(before.push(name).drop_last() =~= before);
    if start > 1 {
        let front = path.take(start - 1);
        assert(is_plain_path(front)) by {
            assert forall|i: int| 0 <= i < front.len() && #[trigger] front[i] == '/' implies i + 1
                < front.len() && front[i + 1] != '/' by {
                assert(path[i] == '/');
            }
            assert forall|i: int|
                0 <= i < front.len() && #[trigger] front[i] == '.' && (i == 0 || front[i - 1]
                    == '/') implies i + 1 < front.len() && front[i + 1] != '/' by {
                assert(path[i] == '.');
            }
            assert forall|i: int| 0 <= i < front.len() implies #[trigger] front[i] != '\\' by {
                assert(path[i] != '\\');
            }
        }
        lemma_plain_path_is_joined(front);
        assert(front[0] == path[0]);
        assert(joined(rooted, before) == front);
        assert(front.push('/') + name =~= path);
    } else if start == 1 {
        assert(path.take(0).len() == 0);
        assert(before =~= Seq::empty());
        assert(joined(rooted, before) =~= Seq::empty());
        assert(Seq::<char>::empty().push('/') + name =~= path);
        assert(rooted);
    } else {
        assert(joined(rooted, before) =~= Seq::empty());
        assert(path[0] != '/');
        assert(Seq::<char>::empty() + name =~= path);
    }
    assert(before.push(name).last() == name);
}

/// Plainly written paths with the same components are written the same.
pub proof fn lemma_plain_paths_differ(a: Seq<char>, b: Seq<char>)
    requires
        is_plain_path(a),
        is_plain_path(b),
        components(a) == components(b),
    ensures
        a == b,
{
    lemma_plain_path_is_joined(a);
    lemma_plain_path_is_joined(b);
}

/// A comparison by components tells plainly written paths apart.
proof fn lemma_path_verdict(a: Seq<char>, b: Seq<char>, same: bool)
    requires
        is_components_verdict(a, b, same),
    ensures
        is_path_verdict(a, b, same),
{
    if is_plain_path(a) && is_plain_path(b) {
        if a.len() > 1 {
            assert(a[0] == '/' ==> a[1] != '/');
        }
        if b.len() > 1 {
            assert(b[0] == '/' ==> b[1] != '/');
        }
        if same {
            lemma_plain_paths_differ(a, b);
        }
    }
}

/// `same` tells of each row whether it stands for the thread at `path`. A heading does not.
pub open spec fn are_path_verdicts(
    items: Seq<ListItemType>,
    path: Seq<char>,
    same: Seq<bool>,
) -> bool {
    &&& same.len() == items.len()
    &&& forall|i: int|
        0 <= i < items.len() ==> match (#[trigger] items[i]).thread() {
            Some(thread) => is_path_verdict(thread.path@, path, same[i]),
            None => !same[i],
        }
}

/// `index` is the first row that is marked, or 0 if none is.
pub open spec fn is_first_marked(marks: Seq<bool>, index: int) -> bool {
    ||| {
        &&& 0 <= index < marks.len()
        &&& marks[index]
        &&& forall|i: int| 0 <= i < index ==> !#[trigger] marks[i]
    }
    ||| {
        &&& index == 0
        &&& forall|i: int| 0 <= i < marks.len() ==> !#[trigger] marks[i]
    }
}

/// Compares the path of each row with `path`.
pub fn compare_paths(items: &Vec<ListItemType>, path: &String) -> (same: Vec<bool>)
    ensures
        are_path_verdicts(items@, path@, same@),
{
    let mut same: Vec<bool> = Vec::with_capacity(items.len());
    let mut index: usize = 0;
    while index < items.len()
        invariant
            index <= items@.len(),
            same@.len() == index,
            forall|i: int|
                0 <= i < index ==> match (#[trigger] items@[i]).thread() {
                    Some(thread) => is_path_verdict(thread.path@, path@, same@[i]),
                    None => !same@[i],
                },
        decreases items@.len() - index,
    {
        let matches = match items[index].entry() {
            Some(entry) => {
                let matches = std_same_path(entry.path.as_str(), path.as_str());
                proof {
                    lemma_path_verdict(entry.path@, path@, matches);
                }
                matches
            },
            None => false,
        };
        same.push(matches);
        index += 1;
    }
    same
}

/// The first row that is marked, or 0 if none is.
pub fn first_marked(marks: &Vec<bool>) -> (index: usize)
    ensures
        is_first_marked(marks@, index as int),
{
    let mut index: usize = 0;
    while index < marks.len()
        invariant
            index <= marks@.len(),
            forall|i: int| 0 <= i < index ==> !#[trigger] marks@[i],
        decreases marks@.len() - index,
    {
        if marks[index] {
            return index;
        }
        index += 1;
    }
    0
}

/// Each row is compared by the path of its own thread, under a heading or found by a search, and a
/// heading is never the row of a thread.
pub proof fn lemma_rows_are_compared_by_path(
    items: Seq<ListItemType>,
    path: Seq<char>,
    same: Seq<bool>,
    index: int,
)
    requires
        are_path_verdicts(items, path, same),
        0 <= index < items.len(),
    ensures
        same.len() == items.len(),
        items[index] is BucketSeparator ==> !same[index],
        items[index] is Entry ==> is_path_verdict(
            items[index]->Entry_entry.path@,
            path,
            same[index],
        ),
        items[index] is SearchResult ==> is_path_verdict(
            items[index]->SearchResult_entry.path@,
            path,
            same[index],
        ),
        items[index] is Entry && items[index]->Entry_entry.path@ == path ==> same[index],
        items[index] is SearchResult && items[index]->SearchResult_entry.path@ == path
            ==> same[index],
{
    assert(items[index].thread() is Some || !same[index]);
}

/// Of the rows that are marked the first is taken, wherever it is, and the top of the list if there
/// is none.
pub proof fn lemma_first_of_marked(marks: Seq<bool>, index: int, marked: int)
    requires
        is_first_marked(marks, index),
    ensures
        0 <= marked < marks.len() && marks[marked] ==> 0 <= index <= marked && marks[index],
        (forall|i: int| 0 <= i < marks.len() ==> !#[trigger] marks[i]) ==> index == 0,
{
}

/// After a slash a text starts anew: where its last name starts does not depend on what comes
/// before.
proof fn lemma_last_name_start_after_slash(front: Seq<char>, back: Seq<char>)
    ensures
        last_name_start(front.push('/') + back) == front.len() + 1 + last_name_start(back),
    decreases back.len(),
{
    let path = front.push('/') + back;
    if back.len() == 0 {
        assert(path.last() == '/');
    } else if back.last() != '/' {
        lemma_last_name_start_after_slash(front, back.drop_last());
        assert(path.drop_last() =~= front.push('/') + back.drop_last());
        assert(path.last() == back.last());
    } else {
        assert(path.last() == back.last());
    }
}

/// A slash sets names apart, and does nothing else: the names of two texts with a slash between
/// them are those of the one and then those of the other.
pub proof fn lemma_slash_sets_names_apart(front: Seq<char>, back: Seq<char>)
    ensures
        slash_names(front.push('/') + back) == slash_names(front) + slash_names(back),
    decreases back.len(),
{
    let path = front.push('/') + back;
    lemma_last_name_start(back);
    lemma_last_name_start_after_slash(front, back);
    let start = last_name_start(back);
    assert(path.skip(front.len() + 1 + start) =~= back.skip(start));
    if start > 0 {
        lemma_slash_sets_names_apart(front, back.take(start - 1));
        assert(path.take(front.len() + start) =~= front.push('/') + back.take(start - 1));
    } else {
        assert(path.take(front.len() as int) =~= front);
    }
    assert(slash_names(path) =~= slash_names(front) + slash_names(back));
}

/// A text without slashes is one name, or none if it is empty or `.`.
pub proof fn lemma_text_without_slashes_is_a_name(name: Seq<char>)
    requires
        forall|i: int| 0 <= i < name.len() ==> #[trigger] name[i] != '/',
    ensures
        name.len() == 0 || name.len() == 1 && name[0] == '.' ==> slash_names(name).len() == 0,
        name.len() > 1 || name.len() == 1 && name[0] != '.' ==> slash_names(name) == seq![name],
{
    lemma_last_name_start(name);
    assert(name.skip(0) =~= name);
    if name.len() == 1 && name[0] == '.' {
        assert(name =~= seq!['.']);
    }
    if name.len() > 0 {
        assert(slash_names(name) =~= (if name == seq!['.'] {
            Seq::empty()
        } else {
            seq![name]
        }));
    }
}

/// The components of a path tell whether it starts with a slash and whether it starts with a name
/// `.`, besides its names.
pub proof fn lemma_start_of_path(path: Seq<char>)
    requires
        path.len() > 0,
    ensures
        components(path).rooted <==> path[0] == '/',
        components(path).dotted <==> path == seq!['.'] || path.len() > 1 && path[0] == '.'
            && path[1] == '/',
        components(path).names == slash_names(path),
{
    if path.len() == 1 && path[0] == '.' {
        assert(path =~= seq!['.']);
    }
}

/// A slash too many within a path, a name `.` within it or a slash at its end makes no difference:
/// the path is the same. None of the paths holds a backslash or a colon here, and none starts with
/// two slashes.
pub proof fn lemma_redundant_slashes_make_no_difference(
    front: Seq<char>,
    back: Seq<char>,
    doubled: bool,
    dotted: bool,
    trailing: bool,
)
    requires
        front.len() > 0,
        front[0] == '/' ==> front.len() > 1 && front[1] != '/',
        forall|i: int| 0 <= i < front.len() ==> #[trigger] front[i] != '\\' && front[i] != ':',
        forall|i: int| 0 <= i < back.len() ==> #[trigger] back[i] != '\\' && back[i] != ':',
        is_path_verdict(front.push('/') + back, front.push('/').push('/') + back, doubled),
        is_path_verdict(front.push('/') + back, front.push('/').push('.').push('/') + back, dotted),
        is_path_verdict(front, front.push('/'), trailing),
    ensures
        doubled,
        dotted,
        trailing,
{
    let path = front.push('/') + back;
    let two = front.push('/').push('/') + back;
    let dot = front.push('/').push('.').push('/') + back;
    lemma_slash_sets_names_apart(front, back);
    lemma_slash_sets_names_apart(front.push('/'), back);
    lemma_slash_sets_names_apart(front, Seq::empty());
    assert(front.push('/') + Seq::empty() =~= front.push('/'));
    lemma_slash_sets_names_apart(front.push('/').push('.'), back);
    lemma_slash_sets_names_apart(front, seq!['.']);
    assert(front.push('/') + seq!['.'] =~= front.push('/').push('.'));
    lemma_text_without_slashes_is_a_name(seq!['.']);
    assert(slash_names(front) + slash_names(seq!['.']) =~= slash_names(front));
    assert(slash_names(front) + slash_names(Seq::empty()) =~= slash_names(front));
    assert(is_slash_path(path) && is_slash_path(two) && is_slash_path(dot));
    assert(is_slash_path(front) && is_slash_path(front.push('/')));
    assert(components(path) =~= components(two));
    assert(components(path) =~= components(dot));
    assert(components(front) =~= components(front.push('/')));
}

/// Paths of names between single slashes are the same only if they are written the same, whatever
/// the names and however long. No name is `.` or holds a backslash or a colon here.
pub proof fn lemma_plain_paths_are_told_apart(a: Seq<char>, b: Seq<char>, same: bool)
    requires
        is_path_verdict(a, b, same),
        a.len() > 0,
        b.len() > 0,
        forall|i: int| 0 <= i < a.len() ==> #[trigger] a[i] != '\\' && a[i] != ':',
        forall|i: int| 0 <= i < b.len() ==> #[trigger] b[i] != '\\' && b[i] != ':',
        forall|i: int|
            0 <= i < a.len() && #[trigger] a[i] == '/' ==> i + 1 < a.len() && a[i + 1] != '/',
        forall|i: int|
            0 <= i < b.len() && #[trigger] b[i] == '/' ==> i + 1 < b.len() && b[i + 1] != '/',
        forall|i: int|
            0 <= i < a.len() && #[trigger] a[i] == '.' && (i == 0 || a[i - 1] == '/') ==> i + 1
                < a.len() && a[i + 1] != '/',
        forall|i: int|
            0 <= i < b.len() && #[trigger] b[i] == '.' && (i == 0 || b[i - 1] == '/') ==> i + 1
                < b.len() && b[i + 1] != '/',
    ensures
        same == (a == b),
        is_plain_path(a),
{
}

/// Without a colon in it, a path folds to the components that it has with slashes for its
/// backslashes.
pub proof fn lemma_folding_without_colon(path: Seq<char>)
    requires
        forall|i: int| 0 <= i < path.len() ==> #[trigger] path[i] != ':',
    ensures
        folded_components(path) == components(
            path.map_values(
                |c: char|
                    if c == '\\' {
                        '/'
                    } else {
                        c
                    },
            ),
        ),
{
    assert(folded_text(path) =~= path.map_values(
        |c: char|
            if c == '\\' {
                '/'
            } else {
                c
            },
    ));
}

/// A path on a drive folds to the drive, in small letters, and then to the names of what follows,
/// with slashes for backslashes.
pub proof fn lemma_folding_of_drive(letter: char, small: char, rest: Seq<char>)
    requires
        97 <= small as u32 <= 122,
        letter == small || letter as u32 + 32 == small as u32,
        forall|i: int| 0 <= i < rest.len() ==> #[trigger] rest[i] != ':',
    ensures
        folded_components(seq![letter, ':', '\\'] + rest) == (PathComponents {
            rooted: false,
            dotted: false,
            names: seq![seq![small, ':']] + slash_names(
                rest.map_values(
                    |c: char|
                        if c == '\\' {
                            '/'
                        } else {
                            c
                        },
                ),
            ),
        }),
{
    let path = seq![letter, ':', '\\'] + rest;
    let text = folded_text(path);
    let mapped = rest.map_values(
        |c: char|
            if c == '\\' {
                '/'
            } else {
                c
            },
    );
    let drive = seq![small, ':'];
    assert(path[0] == letter && path[1] == ':' && path[2] == '\\');
    assert(text[0] == small);
    assert forall|i: int| 3 <= i < path.len() implies #[trigger] text[i] == mapped[i - 3] by {
        assert(path[i] == rest[i - 3]);
        if i + 1 < path.len() {
            assert(path[i + 1] == rest[i - 2]);
        }
    }
    let apart = text.take(2).push('/') + text.skip(2);
    assert(apart =~= drive.push('/') + (Seq::empty().push('/') + mapped));
    lemma_slash_sets_names_apart(drive, Seq::empty().push('/') + mapped);
    lemma_slash_sets_names_apart(Seq::empty(), mapped);
    lemma_text_without_slashes_is_a_name(drive);
    lemma_text_without_slashes_is_a_name(Seq::empty());
    assert(slash_names(Seq::empty()) + slash_names(mapped) =~= slash_names(mapped));
    assert(folded_components(path) =~= components(apart));
    assert(components(apart) =~= (PathComponents {
        rooted: false,
        dotted: false,
        names: seq![drive] + slash_names(mapped),
    }));
}

/// Paths on one drive, of names between single backslashes, are the same only if they are written
/// the same. No name is `.` or holds a slash or a colon here.
pub proof fn lemma_drive_paths_are_told_apart(
    letter: char,
    a: Seq<char>,
    b: Seq<char>,
    same: bool,
)
    requires
        65 <= letter as u32 <= 90,
        is_path_verdict(seq![letter, ':', '\\'] + a, seq![letter, ':', '\\'] + b, same),
        a.len() > 0,
        b.len() > 0,
        forall|i: int| 0 <= i < a.len() ==> #[trigger] a[i] != '/' && a[i] != ':',
        forall|i: int| 0 <= i < b.len() ==> #[trigger] b[i] != '/' && b[i] != ':',
        a[0] != '\\',
        b[0] != '\\',
        forall|i: int|
            0 <= i < a.len() && #[trigger] a[i] == '\\' ==> i + 1 < a.len() && a[i + 1] != '\\',
        forall|i: int|
            0 <= i < b.len() && #[trigger] b[i] == '\\' ==> i + 1 < b.len() && b[i + 1] != '\\',
        forall|i: int|
            0 <= i < a.len() && #[trigger] a[i] == '.' && (i == 0 || a[i - 1] == '\\') ==> i + 1
                < a.len() && a[i + 1] != '\\',
        forall|i: int|
            0 <= i < b.len() && #[trigger] b[i] == '.' && (i == 0 || b[i - 1] == '\\') ==> i + 1
                < b.len() && b[i + 1] != '\\',
    ensures
        same == (a == b),
{
    let fold = |c: char|
        if c == '\\' {
            '/'
        } else {
            c
        };
    let small = (letter as u32 + 32) as char;
    if a == b {
        assert(same);
    } else if same {
        lemma_folding_of_drive(letter, small, a);
        lemma_folding_of_drive(letter, small, b);
        let x = a.map_values(fold);
        let y = b.map_values(fold);
        let drive = seq![seq![small, ':']];
        assert((drive + slash_names(x)).skip(1) =~= slash_names(x));
        assert((drive + slash_names(y)).skip(1) =~= slash_names(y));
        assert(slash_names(x) == slash_names(y));
        lemma_folded_rest_is_plain(a);
        lemma_folded_rest_is_plain(b);
        assert(components(x) =~= components(y)) by {
            assert(x[0] == a[0] && y[0] == b[0]);
            assert(a[0] == '.' ==> a.len() > 1 && a[1] != '\\');
            assert(b[0] == '.' ==> b.len() > 1 && b[1] != '\\');
        }
        lemma_plain_paths_differ(x, y);
        assert forall|i: int| 0 <= i < a.len() implies a[i] == b[i] by {
            assert(x[i] == fold(a[i]) && y[i] == fold(b[i]));
            assert(a[i] != '/' && b[i] != '/');
        }
        assert(a =~= b);
    }
}

/// Names between single backslashes are written plainly once these are slashes.
proof fn lemma_folded_rest_is_plain(a: Seq<char>)
    requires
        a.len() > 0,
        forall|i: int| 0 <= i < a.len() ==> #[trigger] a[i] != '/' && a[i] != ':',
        forall|i: int|
            0 <= i < a.len() && #[trigger] a[i] == '\\' ==> i + 1 < a.len() && a[i + 1] != '\\',
        forall|i: int|
            0 <= i < a.len() && #[trigger] a[i] == '.' && (i == 0 || a[i - 1] == '\\') ==> i + 1
                < a.len() && a[i + 1] != '\\',
    ensures
        is_plain_path(
            a.map_values(
                |c: char|
                    if c == '\\' {
                        '/'
                    } else {
                        c
                    },
            ),
        ),
{
    let x = a.map_values(
        |c: char|
            if c == '\\' {
                '/'
            } else {
                c
            },
    );
    assert forall|i: int| 0 <= i < x.len() && #[trigger] x[i] == '/' implies i + 1 < x.len() && x[i
        + 1] != '/' by {
        assert(a[i] == '\\');
        assert(a[i + 1] != '/');
    }
    assert forall|i: int|
        0 <= i < x.len() && #[trigger] x[i] == '.' && (i == 0 || x[i - 1] == '/') implies i + 1
        < x.len() && x[i + 1] != '/' by {
        assert(a[i] == '.');
        if i > 0 {
            assert(a[i - 1] != '/');
        }
        assert(a[i + 1] != '/');
    }
    assert forall|i: int| 0 <= i < x.len() implies #[trigger] x[i] != '\\' by {}
    if x.len() > 1 {
        assert(a[1] != ':');
    }
}

} // verus!
