//! Paths by which FIFOs are found again.
//!
//! Two spellings of a path are the same path where they have the same components: repeated
//! separators and a separator at the end do not count, nor does a `.`, except at the
//! beginning.
use vstd::prelude::*;

verus! {

/// What a path says where it is looked up.
pub struct PathKeyView {
    /// Whether it begins at the root.
    pub rooted: bool,
    /// The names on the way.
    pub names: Seq<Seq<char>>,
}

/// The pieces of a path between its separators.
pub open spec fn pieces(path: Seq<char>) -> Seq<Seq<char>>
    decreases path.len(),
{
    if path.len() == 0 {
        seq![Seq::empty()]
    } else {
        let before = pieces(path.drop_last());
        if path.last() == '/' {
            before.push(Seq::empty())
        } else {
            before.drop_last().push(before.last().push(path.last()))
        }
    }
}

/// The pieces that count: those that are not empty, and of a `.` only one at the beginning.
pub open spec fn counting(pieces: Seq<Seq<char>>) -> Seq<Seq<char>>
    decreases pieces.len(),
{
    if pieces.len() == 0 {
        Seq::empty()
    } else {
        let before = counting(pieces.drop_last());
        if pieces.last().len() == 0 || (pieces.len() > 1 && pieces.last() == seq!['.']) {
            before
        } else {
            before.push(pieces.last())
        }
    }
}

/// What a path says where it is looked up.
pub open spec fn key_of(path: Seq<char>) -> PathKeyView {
    PathKeyView {
        rooted: path.len() > 0 && path[0] == '/',
        names: counting(pieces(path)),
    }
}

/// What a path says where it is looked up.
#[derive(Debug)]
pub struct PathKey {
    rooted: bool,
    names: Vec<Vec<char>>,
}

impl View for PathKey {
    type V = PathKeyView;

    closed spec fn view(&self) -> PathKeyView {
        PathKeyView { rooted: self.rooted, names: name_views(self.names@) }
    }
}

spec fn name_views(names: Seq<Vec<char>>) -> Seq<Seq<char>> {
    names.map_values(|name: Vec<char>| name@)
}

/// Whether a piece counts, by what stands before it.
fn counts(piece: &Vec<char>, first: bool) -> (yes: bool)
    ensures
        yes == !(piece@.len() == 0 || (!first && piece@ == seq!['.'])),
{
    if piece.len() == 0 {
        return false;
    }
    if !first && piece.len() == 1 && piece[0] == '.' {
        assert(piece@ =~= seq!['.']);
        return false;
    }
    true
}

/// Reads a path.
pub fn path_key(path: &str) -> (key: PathKey)
    ensures
        key@ == key_of(path@),
{
    let mut rooted = false;
    let mut names: Vec<Vec<char>> = Vec::new();
    let mut piece: Vec<char> = Vec::new();
    let mut first = true;
    let ghost mut done: Seq<Seq<char>> = Seq::empty();
    assert(pieces(path@.take(0)) =~= done.push(piece@));
    assert(name_views(names@) =~= counting(done));
    for c in it: path.chars()
        invariant
            it.seq() == path@,
            pieces(path@.take(it.index())) == done.push(piece@),
            name_views(names@) == counting(done),
            first == (done.len() == 0),
            rooted == (it.index() > 0 && path@[0] == '/'),
            first ==> piece@.len() == it.index(),
    {
        assert(path@.take(it.index() + 1).drop_last() =~= path@.take(it.index()));
        assert(done.push(piece@).drop_last() =~= done);
        if c == '/' {
            if first && piece.len() == 0 {
                rooted = true;
            }
            proof {
                done = done.push(piece@);
            }
            if counts(&piece, first) {
                let ghost before = names@;
                names.push(piece);
                assert(name_views(names@) =~= name_views(before).push(piece@));
            }
            first = false;
            piece = Vec::new();
        } else {
            piece.push(c);
        }
    }
    assert(path@.take(path@.len() as int) =~= path@);
    let ghost all = done.push(piece@);
    assert(all.drop_last() =~= done);
    if counts(&piece, first) {
        let ghost before = names@;
        names.push(piece);
        assert(name_views(names@) =~= name_views(before).push(piece@));
    }
    PathKey { rooted, names }
}

fn same_name(a: &Vec<char>, b: &Vec<char>) -> (same: bool)
    ensures
        same == (a@ == b@),
{
    if a.len() != b.len() {
        return false;
    }
    for i in 0..a.len()
        invariant
            a@.len() == b@.len(),
            forall|j: int| 0 <= j < i ==> a@[j] == b@[j],
    {
        if a[i] != b[i] {
            return false;
        }
    }
    assert(a@ =~= b@);
    true
}

impl PathKey {
    /// Whether two paths are the same path.
    pub fn same(&self, other: &PathKey) -> (same: bool)
        ensures
            same == (self@ == other@),
    {
        if self.rooted != other.rooted || self.names.len() != other.names.len() {
            assert(self@.names.len() == self.names@.len());
            assert(other@.names.len() == other.names@.len());
            return false;
        }
        for i in 0..self.names.len()
            invariant
                self.names@.len() == other.names@.len(),
                forall|j: int| 0 <= j < i ==> self@.names[j] == other@.names[j],
        {
            if !same_name(&self.names[i], &other.names[i]) {
                assert(self@.names[i as int] != other@.names[i as int]);
                return false;
            }
        }
        assert(self@.names =~= other@.names);
        true
    }
}

/// The pieces that count where others stand before them.
spec fn counting_later(pieces: Seq<Seq<char>>) -> Seq<Seq<char>>
    decreases pieces.len(),
{
    if pieces.len() == 0 {
        Seq::empty()
    } else {
        let before = counting_later(pieces.drop_last());
        if pieces.last().len() == 0 || pieces.last() == seq!['.'] {
            before
        } else {
            before.push(pieces.last())
        }
    }
}

proof fn pieces_of_two(a: Seq<char>, b: Seq<char>)
    ensures
        pieces(a.push('/') + b) == pieces(a) + pieces(b),
        pieces(b).len() > 0,
    decreases b.len(),
{
    if b.len() == 0 {
        assert(a.push('/') + b =~= a.push('/'));
        assert(a.push('/').drop_last() =~= a);
        assert(pieces(a.push('/') + b) =~= pieces(a) + pieces(b));
    } else {
        let c = b.drop_last();
        pieces_of_two(a, c);
        assert((a.push('/') + b).drop_last() =~= a.push('/') + c);
        assert((pieces(a) + pieces(c)).drop_last() =~= pieces(a) + pieces(c).drop_last());
        assert(pieces(a.push('/') + b) =~= pieces(a) + pieces(b));
    }
}

proof fn counting_of_two(x: Seq<Seq<char>>, y: Seq<Seq<char>>)
    requires
        x.len() > 0,
    ensures
        counting(x + y) == counting(x) + counting_later(y),
    decreases y.len(),
{
    if y.len() == 0 {
        assert(x + y =~= x);
        assert(counting(x + y) =~= counting(x) + counting_later(y));
    } else {
        counting_of_two(x, y.drop_last());
        assert((x + y).drop_last() =~= x + y.drop_last());
        assert(counting(x + y) =~= counting(x) + counting_later(y));
    }
}

/// Separators that follow each other count as one.
pub proof fn repeated_separators_count_once(a: Seq<char>, b: Seq<char>)
    ensures
        key_of(a.push('/').push('/') + b) == key_of(a.push('/') + b),
{
    some_piece(a);
    pieces_of_two(a, b);
    pieces_of_two(a.push('/'), b);
    assert(a.push('/').drop_last() =~= a);
    counting_of_two(pieces(a), pieces(b));
    counting_of_two(pieces(a.push('/')), pieces(b));
    assert(pieces(a.push('/')).drop_last() =~= pieces(a));
    let doubled = a.push('/').push('/') + b;
    let single = a.push('/') + b;
    assert(doubled[0] == single[0]) by {
        if a.len() > 0 {
            assert(doubled[0] == a[0]);
        }
    }
}

/// A `.` between two separators does not count.
pub proof fn a_dot_on_the_way_does_not_count(a: Seq<char>, b: Seq<char>)
    ensures
        key_of(a.push('/').push('.').push('/') + b) == key_of(a.push('/') + b),
{
    let slashed = a.push('/');
    let dotted = slashed.push('.');
    some_piece(a);
    pieces_of_two(a, b);
    pieces_of_two(dotted, b);
    assert(dotted.drop_last() =~= slashed);
    assert(slashed.drop_last() =~= a);
    counting_of_two(pieces(a), pieces(b));
    counting_of_two(pieces(dotted), pieces(b));
    assert(pieces(slashed).drop_last() =~= pieces(a));
    assert(pieces(dotted).drop_last() =~= pieces(a));
    assert(pieces(dotted).last() =~= seq!['.']);
    let with = dotted.push('/') + b;
    let without = slashed + b;
    assert(with[0] == without[0]) by {
        if a.len() > 0 {
            assert(with[0] == a[0]);
        }
    }
}

/// A separator at the end of a path does not count.
pub proof fn a_separator_at_the_end_does_not_count(path: Seq<char>)
    requires
        path.len() > 0,
    ensures
        key_of(path.push('/')) == key_of(path),
{
    assert(path.push('/').drop_last() =~= path);
    assert(pieces(path).push(Seq::empty()).drop_last() =~= pieces(path));
}

/// A `.` at the end of a path does not count.
pub proof fn a_dot_at_the_end_does_not_count(a: Seq<char>)
    ensures
        key_of(a.push('/').push('.')) == key_of(a.push('/')),
{
    some_piece(a);
    let slashed = a.push('/');
    let dotted = slashed.push('.');
    assert(slashed.drop_last() =~= a);
    assert(dotted.drop_last() =~= slashed);
    assert(pieces(slashed).drop_last() =~= pieces(a));
    assert(pieces(dotted).drop_last() =~= pieces(a));
    assert(pieces(dotted).last() =~= seq!['.']);
}

/// A name that can stand between two separators and counts.
pub open spec fn is_name(name: Seq<char>) -> bool {
    name.len() > 0 && !name.contains('/') && name != seq!['.']
}

/// Names with a separator between each two.
pub open spec fn joined(names: Seq<Seq<char>>) -> Seq<char>
    decreases names.len(),
{
    if names.len() == 0 {
        Seq::empty()
    } else if names.len() == 1 {
        names[0]
    } else {
        joined(names.drop_last()).push('/') + names.last()
    }
}

proof fn a_name_is_one_piece(name: Seq<char>)
    requires
        !name.contains('/'),
    ensures
        pieces(name) == seq![name],
    decreases name.len(),
{
    if name.len() == 0 {
        assert(name =~= Seq::empty());
        assert(pieces(name) =~= seq![name]);
    } else {
        let shorter = name.drop_last();
        assert forall|i: int| 0 <= i < shorter.len() implies shorter[i] != '/' by {
            assert(name.contains(name[i]));
        }
        a_name_is_one_piece(shorter);
        assert(name.contains(name.last()));
        assert(shorter.push(name.last()) =~= name);
        assert(pieces(name) =~= seq![name]);
    }
}

proof fn a_later_name_counts(name: Seq<char>)
    requires
        is_name(name),
    ensures
        counting_later(seq![name]) == seq![name],
{
    let one = seq![name];
    assert(one.drop_last() =~= Seq::empty());
    assert(counting_later(one.drop_last()) =~= Seq::empty());
    assert(counting_later(one) =~= one);
}

proof fn later_of_two(x: Seq<Seq<char>>, y: Seq<Seq<char>>)
    ensures
        counting_later(x + y) == counting_later(x) + counting_later(y),
    decreases y.len(),
{
    if y.len() == 0 {
        assert(x + y =~= x);
        assert(counting_later(x + y) =~= counting_later(x) + counting_later(y));
    } else {
        later_of_two(x, y.drop_last());
        assert((x + y).drop_last() =~= x + y.drop_last());
        assert(counting_later(x + y) =~= counting_later(x) + counting_later(y));
    }
}

proof fn later_names_of_a_joined_path(names: Seq<Seq<char>>)
    requires
        forall|i: int| 0 <= i < names.len() ==> is_name(#[trigger] names[i]),
    ensures
        counting_later(pieces(joined(names))) == names,
    decreases names.len(),
{
    if names.len() == 0 {
        let none: Seq<Seq<char>> = seq![Seq::empty()];
        assert(none.drop_last() =~= Seq::empty());
        assert(counting_later(none.drop_last()) =~= Seq::empty());
        assert(counting_later(none) =~= Seq::empty());
        assert(names =~= Seq::empty());
    } else if names.len() == 1 {
        a_name_is_one_piece(names[0]);
        a_later_name_counts(names[0]);
        assert(names =~= seq![names[0]]);
    } else {
        let earlier = names.drop_last();
        let name = names.last();
        assert(is_name(names[names.len() - 1]));
        assert forall|i: int| 0 <= i < earlier.len() implies is_name(#[trigger] earlier[i]) by {
            assert(earlier[i] == names[i]);
        }
        later_names_of_a_joined_path(earlier);
        a_name_is_one_piece(name);
        pieces_of_two(joined(earlier), name);
        later_of_two(pieces(joined(earlier)), pieces(name));
        a_later_name_counts(name);
        assert(names =~= earlier + seq![name]);
    }
}

/// A path is known by all of its names, in order, and by whether it begins at the root. A
/// first name may be a `.` where the path does not begin at the root.
pub proof fn a_path_is_known_by_all_its_names(names: Seq<Seq<char>>)
    requires
        forall|i: int| 0 <= i < names.len() ==> is_name(#[trigger] names[i]) || (i == 0 && names[i]
            == seq!['.']),
    ensures
        key_of(joined(names)) == (PathKeyView { rooted: false, names }),
        (names.len() > 0 ==> is_name(names[0])) ==> key_of(seq!['/'] + joined(names)) == (
        PathKeyView { rooted: true, names }),
    decreases names.len(),
{
    if names.len() == 0 {
        assert(pieces(joined(names)) =~= seq![Seq::empty()]);
        let none: Seq<Seq<char>> = seq![Seq::empty()];
        assert(none.drop_last() =~= Seq::empty());
        assert(counting(none.drop_last()) =~= Seq::empty());
        assert(counting(none) =~= Seq::empty());
        assert(names =~= Seq::empty());
    } else if names.len() == 1 {
        let one = seq![names[0]];
        assert(!names[0].contains('/'));
        a_name_is_one_piece(names[0]);
        assert(one.drop_last() =~= Seq::empty());
        assert(counting(one.drop_last()) =~= Seq::empty());
        assert(counting(one) =~= one);
        assert(names =~= one);
        assert(names[0].contains(names[0][0]));
    } else {
        let earlier = names.drop_last();
        let name = names.last();
        assert(is_name(names[names.len() - 1]));
        assert forall|i: int| 0 <= i < earlier.len() implies is_name(#[trigger] earlier[i]) || (i
            == 0 && earlier[i] == seq!['.']) by {
            assert(earlier[i] == names[i]);
        }
        a_path_is_known_by_all_its_names(earlier);
        some_piece(joined(earlier));
        a_name_is_one_piece(name);
        pieces_of_two(joined(earlier), name);
        counting_of_two(pieces(joined(earlier)), pieces(name));
        a_later_name_counts(name);
        assert(names =~= earlier + seq![name]);
        joined_begins_with_a_name(earlier);
        assert(joined(names)[0] == joined(earlier)[0]);
    }
    if names.len() > 0 ==> is_name(names[0]) {
        assert forall|i: int| 0 <= i < names.len() implies is_name(#[trigger] names[i]) by {}
        let root: Seq<char> = Seq::empty();
        assert(root.push('/') + joined(names) =~= seq!['/'] + joined(names));
        pieces_of_two(root, joined(names));
        counting_of_two(pieces(root), pieces(joined(names)));
        later_names_of_a_joined_path(names);
        let none: Seq<Seq<char>> = seq![Seq::empty()];
        assert(none.drop_last() =~= Seq::empty());
        assert(counting(none.drop_last()) =~= Seq::empty());
        assert(counting(none) =~= Seq::empty());
        assert(counting(none) + names =~= names);
    }
}

proof fn joined_begins_with_a_name(names: Seq<Seq<char>>)
    requires
        names.len() > 0,
        names[0].len() > 0,
    ensures
        joined(names).len() > 0,
        joined(names)[0] == names[0][0],
    decreases names.len(),
{
    if names.len() > 1 {
        joined_begins_with_a_name(names.drop_last());
    }
}

/// A name in a directory adds itself to the names of the directory. So different names in one
/// directory are different paths.
pub proof fn different_names_stay_apart(directory: Seq<char>, x: Seq<char>, y: Seq<char>)
    requires
        is_name(x),
        is_name(y),
    ensures
        key_of(directory.push('/') + x).names == key_of(directory).names.push(x),
        x != y ==> key_of(directory.push('/') + x) != key_of(directory.push('/') + y),
{
    some_piece(directory);
    a_name_is_one_piece(x);
    a_name_is_one_piece(y);
    pieces_of_two(directory, x);
    pieces_of_two(directory, y);
    counting_of_two(pieces(directory), pieces(x));
    counting_of_two(pieces(directory), pieces(y));
    a_later_name_counts(x);
    a_later_name_counts(y);
    assert(counting(pieces(directory)) + seq![x] =~= counting(pieces(directory)).push(x));
    assert(counting(pieces(directory)) + seq![y] =~= counting(pieces(directory)).push(y));
    assert(counting(pieces(directory)).push(x).last() == x);
    assert(counting(pieces(directory)).push(y).last() == y);
}

/// A path begins at the root exactly where its first character is a separator, and its names
/// are such as can stand between separators.
pub proof fn every_path_has_a_plain_spelling(path: Seq<char>)
    ensures
        key_of(path).rooted <==> path.len() > 0 && path[0] == '/',
        forall|i: int|
            0 <= i < key_of(path).names.len() ==> is_name(#[trigger] key_of(path).names[i]) || (i
                == 0 && key_of(path).names[i] == seq!['.'] && !key_of(path).rooted),
        key_of(
            if key_of(path).rooted {
                seq!['/'] + joined(key_of(path).names)
            } else {
                joined(key_of(path).names)
            },
        ) == key_of(path),
{
    let names = key_of(path).names;
    some_piece(path);
    pieces_hold_no_separator(path);
    what_counts_are_names(pieces(path));
    if path.len() > 0 && path[0] == '/' {
        first_piece_of_a_rooted_path(path);
    }
    assert forall|i: int| 0 <= i < names.len() implies is_name(#[trigger] names[i]) || (i == 0
        && names[i] == seq!['.'] && !key_of(path).rooted) by {}
    a_path_is_known_by_all_its_names(names);
}

proof fn pieces_hold_no_separator(path: Seq<char>)
    ensures
        forall|i: int| 0 <= i < pieces(path).len() ==> !(#[trigger] pieces(path)[i]).contains('/'),
        pieces(path).len() > 0,
    decreases path.len(),
{
    if path.len() > 0 {
        let before = pieces(path.drop_last());
        pieces_hold_no_separator(path.drop_last());
        let last = before.last();
        assert(!before[before.len() - 1].contains('/'));
        if path.last() != '/' {
            let longer = last.push(path.last());
            assert forall|i: int| 0 <= i < longer.len() implies longer[i] != '/' by {
                if i < last.len() {
                    assert(last.contains(last[i]));
                }
            }
        }
    }
}

proof fn what_counts_are_names(pieces: Seq<Seq<char>>)
    requires
        forall|i: int| 0 <= i < pieces.len() ==> !(#[trigger] pieces[i]).contains('/'),
    ensures
        forall|i: int|
            0 <= i < counting(pieces).len() ==> is_name(#[trigger] counting(pieces)[i]) || (i == 0
                && counting(pieces)[i] == seq!['.'] && pieces[0] == seq!['.']),
        pieces.len() == 0 ==> counting(pieces).len() == 0,
    decreases pieces.len(),
{
    if pieces.len() > 0 {
        let before = pieces.drop_last();
        assert forall|i: int| 0 <= i < before.len() implies !(#[trigger] before[i]).contains(
            '/',
        ) by {
            assert(before[i] == pieces[i]);
        }
        what_counts_are_names(before);
        assert(!pieces[pieces.len() - 1].contains('/'));
        if before.len() > 0 {
            assert(before[0] == pieces[0]);
        }
        assert forall|i: int| 0 <= i < counting(pieces).len() implies is_name(
            #[trigger] counting(pieces)[i],
        ) || (i == 0 && counting(pieces)[i] == seq!['.'] && pieces[0] == seq!['.']) by {
            if i < counting(before).len() {
                assert(counting(pieces)[i] == counting(before)[i]);
            }
        }
    }
}

proof fn first_piece_of_a_rooted_path(path: Seq<char>)
    requires
        path.len() > 0,
        path[0] == '/',
    ensures
        pieces(path)[0].len() == 0,
        pieces(path).len() > 1,
    decreases path.len(),
{
    some_piece(path.drop_last());
    if path.len() == 1 {
        assert(path.drop_last() =~= Seq::empty());
    } else {
        first_piece_of_a_rooted_path(path.drop_last());
    }
}

proof fn some_piece(path: Seq<char>)
    ensures
        pieces(path).len() > 0,
    decreases path.len(),
{
    if path.len() > 0 {
        some_piece(path.drop_last());
    }
}

} // verus!
