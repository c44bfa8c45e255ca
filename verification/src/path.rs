//! Paths as text, with `/` between the components: joining, the file
//! name, and whether one path lies inside another.

use vstd::prelude::*;
use vstd::string::*;

verus! {

/// The characters of `text`, in order.
pub fn chars_of(text: &str) -> (chars: Vec<char>)
    ensures
        chars@ == text@,
{
    let mut chars: Vec<char> = Vec::new();
    for c in iter: text.chars()
        invariant
            iter.seq() == text@,
            chars@ == text@.take(iter.index()),
    {
        chars.push(c);
        proof {
            assert(chars@ =~= text@.take(iter.index() + 1));
        }
    }
    proof {
        assert(text@.take(text@.len() as int) =~= text@);
    }
    chars
}

/// `base` with `rel` below it. An absolute `rel` stands for itself; a
/// separator is put between the two unless `base` is empty or ends in
/// one.
pub open spec fn joined(base: Seq<char>, rel: Seq<char>) -> Seq<char> {
    if rel.len() > 0 && rel[0] == '/' {
        rel
    } else if base.len() == 0 {
        rel
    } else if base.last() == '/' {
        base + rel
    } else {
        base + seq!['/'] + rel
    }
}

/// Joins two paths.
pub fn join(base: &str, rel: &str) -> (path: String)
    ensures
        path@ == joined(base@, rel@),
{
    let rel_len = rel.unicode_len();
    if rel_len > 0 && rel.get_char(0) == '/' {
        return rel.to_owned();
    }
    let base_len = base.unicode_len();
    if base_len == 0 {
        return rel.to_owned();
    }
    let mut path = base.to_owned();
    if base.get_char(base_len - 1) != '/' {
        proof {
            reveal_strlit("/");
            assert("/"@ =~= seq!['/']);
        }
        path.append("/");
    }
    path.append(rel);
    path
}

/// Where the file name of `path` begins: behind its last separator.
pub open spec fn name_start(path: Seq<char>) -> int
    decreases path.len(),
{
    if path.len() == 0 {
        0
    } else if path.last() == '/' {
        path.len() as int
    } else {
        name_start(path.drop_last())
    }
}

/// The file name of `path`: what follows its last separator, the whole
/// of it where it has none.
pub open spec fn file_name_of(path: Seq<char>) -> Seq<char> {
    path.skip(name_start(path))
}

/// The file name begins inside the path, and holds no separator.
pub proof fn lemma_name_start(path: Seq<char>)
    ensures
        0 <= name_start(path) <= path.len(),
        forall|i: int| name_start(path) <= i < path.len() ==> path[i] != '/',
    decreases path.len(),
{
    if path.len() != 0 && path.last() != '/' {
        lemma_name_start(path.drop_last());
        assert forall|i: int| name_start(path) <= i < path.len() implies path[i] != '/' by {
            if i < path.len() - 1 {
                assert(path.drop_last()[i] == path[i]);
            }
        }
    }
}

/// Takes the file name of a path.
pub fn file_name(path: &str) -> (name: String)
    ensures
        name@ == file_name_of(path@),
{
    let chars = chars_of(path);
    let mut start: usize = 0;
    let mut i: usize = 0;
    proof {
        assert(path@.take(0) =~= Seq::<char>::empty());
    }
    while i < chars.len()
        invariant
            chars@ == path@,
            i <= chars.len(),
            start <= i,
            start == name_start(path@.take(i as int)),
        decreases chars.len() - i,
    {
        proof {
            assert(path@.take(i + 1).last() == path@[i as int]);
            assert(path@.take(i + 1).drop_last() =~= path@.take(i as int));
        }
        if chars[i] == '/' {
            start = i + 1;
        }
        i = i + 1;
    }
    proof {
        assert(path@.take(chars.len() as int) =~= path@);
        assert(path@.subrange(start as int, path@.len() as int) =~= path@.skip(start as int));
    }
    path.substring_char(start, chars.len()).to_owned()
}

/// Whether `prefix` is how `text` begins.
pub fn begins_with(text: &Vec<char>, prefix: &Vec<char>) -> (yes: bool)
    ensures
        yes == prefix@.is_prefix_of(text@),
{
    if prefix.len() > text.len() {
        return false;
    }
    let mut i: usize = 0;
    while i < prefix.len()
        invariant
            prefix.len() <= text.len(),
            i <= prefix.len(),
            forall|k: int| 0 <= k < i ==> prefix@[k] == text@[k],
        decreases prefix.len() - i,
    {
        if prefix[i] != text[i] {
            proof {
                if prefix@.is_prefix_of(text@) {
                    assert(text@.subrange(0, prefix@.len() as int)[i as int] == prefix@[i as int]);
                }
            }
            return false;
        }
        i = i + 1;
    }
    proof {
        assert(prefix@ =~= text@.subrange(0, prefix@.len() as int));
    }
    true
}

/// Whether `path` is `root` or lies below it, component by component.
/// Both are canonical: absolute, without `.` and `..`, without doubled
/// or trailing separators.
pub open spec fn is_within(path: Seq<char>, root: Seq<char>) -> bool {
    &&& root.len() > 0
    &&& root.is_prefix_of(path)
    &&& (path.len() == root.len() || root.last() == '/' || path[root.len() as int] == '/')
}

/// Decides `is_within`.
pub fn within(path: &str, root: &str) -> (inside: bool)
    ensures
        inside == is_within(path@, root@),
{
    let path = chars_of(path);
    let root = chars_of(root);
    if root.len() == 0 || !begins_with(&path, &root) {
        return false;
    }
    path.len() == root.len() || root[root.len() - 1] == '/' || path[root.len()] == '/'
}

/// `path` as it is shown: relative to `base` where it lies below it, as
/// it is otherwise.
pub open spec fn shown_from(path: Seq<char>, base: Seq<char>) -> Seq<char> {
    if base.len() > 0 && base.is_prefix_of(path) && path.len() > base.len() && path[base.len() as int]
        == '/' {
        path.skip(base.len() + 1 as int)
    } else {
        path
    }
}

/// Writes `path` as it is shown from `base`.
pub fn display_from(path: &str, base: &str) -> (shown: String)
    ensures
        shown@ == shown_from(path@, base@),
{
    let chars = chars_of(path);
    let prefix = chars_of(base);
    if prefix.len() > 0 && begins_with(&chars, &prefix) && chars.len() > prefix.len()
        && chars[prefix.len()] == '/' {
        proof {
            assert(path@.subrange(prefix.len() + 1, path@.len() as int) =~= path@.skip(
                prefix.len() + 1,
            ));
        }
        path.substring_char(prefix.len() + 1, chars.len()).to_owned()
    } else {
        path.to_owned()
    }
}

/// Whether `name` names one directory entry: not empty, no separator in
/// it, neither `.` nor `..`.
pub open spec fn is_entry_name(name: Seq<char>) -> bool {
    &&& name.len() > 0
    &&& forall|i: int| 0 <= i < name.len() ==> name[i] != '/'
    &&& name != seq!['.']
    &&& name != seq!['.', '.']
}

/// Decides `is_entry_name`.
pub fn entry_name(name: &str) -> (plain: bool)
    ensures
        plain == is_entry_name(name@),
{
    let chars = chars_of(name);
    if chars.len() == 0 {
        return false;
    }
    if chars.len() == 1 && chars[0] == '.' {
        proof {
            assert(name@ =~= seq!['.']);
        }
        return false;
    }
    if chars.len() == 2 && chars[0] == '.' && chars[1] == '.' {
        proof {
            assert(name@ =~= seq!['.', '.']);
        }
        return false;
    }
    let mut i: usize = 0;
    while i < chars.len()
        invariant
            chars@ == name@,
            i <= chars.len(),
            forall|k: int| 0 <= k < i ==> name@[k] != '/',
        decreases chars.len() - i,
    {
        if chars[i] == '/' {
            return false;
        }
        i = i + 1;
    }
    proof {
        if name@ == seq!['.'] {
            assert(name@.len() == 1 && name@[0] == '.');
        }
        if name@ == seq!['.', '.'] {
            assert(name@.len() == 2 && name@[0] == '.' && name@[1] == '.');
        }
    }
    true
}

/// An entry of a directory inside `root` lies inside `root`.
pub proof fn lemma_entry_within(dir: Seq<char>, name: Seq<char>, root: Seq<char>)
    requires
        is_within(dir, root),
        is_entry_name(name),
    ensures
        is_within(joined(dir, name), root),
{
    let path = joined(dir, name);
    assert(name[0] != '/');
    assert(root =~= dir.subrange(0, root.len() as int));
    assert(root =~= path.subrange(0, root.len() as int));
    if dir.len() > root.len() {
        assert(path[root.len() as int] == dir[root.len() as int]);
    } else if root.last() != '/' {
        assert(path[root.len() as int] == '/');
    }
}

/// The file name of a path that ends in a separator and a name is that
/// name.
pub proof fn lemma_file_name_appended(front: Seq<char>, name: Seq<char>)
    requires
        front.len() == 0 || front.last() == '/',
        forall|i: int| 0 <= i < name.len() ==> name[i] != '/',
    ensures
        name_start(front + name) == front.len(),
        file_name_of(front + name) == name,
    decreases name.len(),
{
    if name.len() == 0 {
        assert(front + name =~= front);
        if front.len() == 0 {
        }
    } else {
        let shorter = name.drop_last();
        lemma_file_name_appended(front, shorter);
        assert((front + name).drop_last() =~= front + shorter);
        assert((front + name).last() == name.last());
    }
    assert((front + name).skip(front.len() as int) =~= name);
}

/// The file name of `base` joined with the directories `dirs` and the
/// name `name` is `name`: `dirs` is empty or relative and ends in a
/// separator, and `name` holds none.
pub proof fn lemma_file_name_joined(base: Seq<char>, dirs: Seq<char>, name: Seq<char>)
    requires
        dirs.len() == 0 || (dirs[0] != '/' && dirs.last() == '/'),
        name.len() > 0,
        forall|i: int| 0 <= i < name.len() ==> name[i] != '/',
    ensures
        file_name_of(joined(base, dirs + name)) == name,
{
    let rel = dirs + name;
    assert(rel[0] != '/');
    if base.len() == 0 {
        if dirs.len() == 0 {
            assert(Seq::<char>::empty() + name =~= rel);
            lemma_file_name_appended(Seq::empty(), name);
        } else {
            lemma_file_name_appended(dirs, name);
        }
    } else if base.last() == '/' {
        assert(base + rel =~= (base + dirs) + name);
        lemma_file_name_appended(base + dirs, name);
    } else {
        assert(base + seq!['/'] + rel =~= (base + seq!['/'] + dirs) + name);
        lemma_file_name_appended(base + seq!['/'] + dirs, name);
    }
}

/// The components of a path: what stands between its separators, empty
/// components too.
pub open spec fn components(path: Seq<char>) -> Seq<Seq<char>>
    decreases path.len(),
{
    if path.len() == 0 {
        seq![Seq::empty()]
    } else {
        let front = components(path.drop_last());
        if path.last() == '/' {
            front.push(Seq::empty())
        } else {
            front.drop_last().push(front.last().push(path.last()))
        }
    }
}

/// How far a component leads down: `..` leads one directory up, `.` and
/// an empty component lead nowhere, every other component one down.
pub open spec fn descent(component: Seq<char>) -> int {
    if component == seq!['.', '.'] {
        -1
    } else if component.len() == 0 || component == seq!['.'] {
        0
    } else {
        1
    }
}

/// How far below their starting point the components end.
pub open spec fn depth(components: Seq<Seq<char>>) -> int
    decreases components.len(),
{
    if components.len() == 0 {
        0
    } else {
        depth(components.drop_last()) + descent(components.last())
    }
}

/// Whether the components never lead above their starting point.
pub open spec fn stays_below(components: Seq<Seq<char>>) -> bool
    decreases components.len(),
{
    components.len() == 0 || (stays_below(components.drop_last()) && depth(components) >= 0)
}

/// Whether `path` is relative and, read component by component, never
/// leaves the directory that it starts from.
pub open spec fn is_relative_inside(path: Seq<char>) -> bool {
    !(path.len() > 0 && path[0] == '/') && stays_below(components(path))
}

fn descent_of(component: &Vec<char>) -> (down: i8)
    ensures
        down == descent(component@),
{
    if component.len() == 2 && component[0] == '.' && component[1] == '.' {
        proof {
            assert(component@ =~= seq!['.', '.']);
        }
        -1
    } else if component.len() == 0 {
        0
    } else if component.len() == 1 && component[0] == '.' {
        proof {
            assert(component@ =~= seq!['.']);
        }
        0
    } else {
        proof {
            if component@ == seq!['.', '.'] {
                assert(component@.len() == 2 && component@[0] == '.' && component@[1] == '.');
            }
            if component@ == seq!['.'] {
                assert(component@.len() == 1 && component@[0] == '.');
            }
        }
        1
    }
}

/// Decides `is_relative_inside`.
pub fn relative_inside(path: &str) -> (inside: bool)
    ensures
        inside == is_relative_inside(path@),
{
    let chars = chars_of(path);
    if chars.len() > 0 && chars[0] == '/' {
        return false;
    }
    let mut current: Vec<char> = Vec::new();
    let ghost mut done: Seq<Seq<char>> = Seq::empty();
    let mut below: bool = true;
    let mut level: usize = 0;
    let mut i: usize = 0;
    proof {
        assert(path@.take(0) =~= Seq::<char>::empty());
        assert(components(path@.take(0)) =~= done.push(current@));
    }
    while i < chars.len()
        invariant
            chars@ == path@,
            i <= chars.len(),
            components(path@.take(i as int)) == done.push(current@),
            below == stays_below(done),
            below ==> level == depth(done),
            level <= done.len() <= i,
        decreases chars.len() - i,
    {
        let ghost before = path@.take(i as int);
        proof {
            assert(path@.take(i + 1).drop_last() =~= before);
            assert(path@.take(i + 1).last() == path@[i as int]);
        }
        if chars[i] == '/' {
            let down = descent_of(&current);
            proof {
                assert(done.push(current@).drop_last() =~= done);
                assert(done.push(current@).last() == current@);
                done = done.push(current@);
            }
            if below {
                if down == -1 {
                    if level == 0 {
                        below = false;
                    } else {
                        level = level - 1;
                    }
                } else if down == 1 {
                    level = level + 1;
                }
            }
            current = Vec::new();
        } else {
            let ghost partial = current@;
            current.push(chars[i]);
            proof {
                assert(done.push(partial).drop_last() =~= done);
                assert(done.push(partial).last() == partial);
            }
        }
        i = i + 1;
    }
    proof {
        assert(path@.take(chars.len() as int) =~= path@);
        assert(done.push(current@).drop_last() =~= done);
        assert(done.push(current@).last() == current@);
    }
    let down = descent_of(&current);
    below && !(down == -1 && level == 0)
}

} // verus!
