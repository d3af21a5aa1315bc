//! Extension lists: the space separated strings that EGL, GLX and WGL report, and the set of
//! names they stand for.
use vstd::prelude::*;
use vstd::string::StringSliceAdditionalSpecFns;

verus! {

/// The byte that separates extension names.
pub const SPACE: u8 = 32;

/// The pieces of `s` between its spaces, left to right; `n` spaces give `n + 1` pieces, some of
/// them possibly empty.
pub open spec fn split_spaces(s: Seq<u8>) -> Seq<Seq<u8>>
    decreases s.len(),
{
    if s.len() == 0 {
        seq![Seq::<u8>::empty()]
    } else {
        let p = split_spaces(s.drop_last());
        if s.last() == SPACE {
            p.push(Seq::<u8>::empty())
        } else {
            p.update(p.len() - 1, p.last().push(s.last()))
        }
    }
}

/// The pieces joined back with one space between two neighbours.
pub open spec fn join_spaces(ps: Seq<Seq<u8>>) -> Seq<u8>
    decreases ps.len(),
{
    if ps.len() <= 1 {
        if ps.len() == 0 { Seq::<u8>::empty() } else { ps[0] }
    } else {
        join_spaces(ps.drop_last()) + seq![SPACE] + ps.last()
    }
}

/// A split always has at least one piece.
pub proof fn lemma_split_nonempty(s: Seq<u8>)
    ensures
        split_spaces(s).len() >= 1,
        split_spaces(s).len() == 1 + s.filter(|b: u8| b == SPACE).len(),
    decreases s.len(),
{
    if s.len() > 0 {
        lemma_split_nonempty(s.drop_last());
        assert(s =~= s.drop_last().push(s.last()));
        s.drop_last().lemma_filter_push(s.last(), |b: u8| b == SPACE);
    } else {
        assert(s.filter(|b: u8| b == SPACE) =~= Seq::<u8>::empty());
    }
}

proof fn lemma_join_extend_last(q: Seq<Seq<u8>>, c: u8)
    requires
        q.len() >= 1,
    ensures
        join_spaces(q.update(q.len() - 1, q.last().push(c))) == join_spaces(q).push(c),
{
    let r = q.update(q.len() - 1, q.last().push(c));
    if q.len() == 1 {
    } else {
        assert(r.drop_last() =~= q.drop_last());
    }
}

/// Splitting at the spaces loses nothing: joining the pieces with spaces gives the input back.
pub proof fn lemma_join_split(s: Seq<u8>)
    ensures
        join_spaces(split_spaces(s)) == s,
    decreases s.len(),
{
    if s.len() == 0 {
    } else {
        lemma_join_split(s.drop_last());
        lemma_split_nonempty(s.drop_last());
        let p = split_spaces(s.drop_last());
        if s.last() == SPACE {
            assert(p.push(Seq::<u8>::empty()).drop_last() =~= p);
            assert(join_spaces(p.push(Seq::<u8>::empty())) =~= s);
        } else {
            lemma_join_extend_last(p, s.last());
            assert(s =~= s.drop_last().push(s.last()));
        }
    }
}

/// No piece of a split holds a space.
pub proof fn lemma_split_pieces_have_no_space(s: Seq<u8>)
    ensures
        forall|i: int, j: int|
            0 <= i < split_spaces(s).len() && 0 <= j < split_spaces(s)[i].len() ==> split_spaces(
                s,
            )[i][j] != SPACE,
    decreases s.len(),
{
    if s.len() > 0 {
        lemma_split_pieces_have_no_space(s.drop_last());
        lemma_split_nonempty(s.drop_last());
        let p = split_spaces(s.drop_last());
        if s.last() != SPACE {
            let r = p.update(p.len() - 1, p.last().push(s.last()));
            assert forall|i: int, j: int| 0 <= i < r.len() && 0 <= j < r[i].len() implies r[i][j]
                != SPACE by {
                if i == p.len() - 1 && j == p.last().len() {
                } else if i == p.len() - 1 {
                    assert(r[i][j] == p[i][j]);
                }
            }
        } else {
            let r = p.push(Seq::<u8>::empty());
            assert forall|i: int, j: int| 0 <= i < r.len() && 0 <= j < r[i].len() implies r[i][j]
                != SPACE by {
                assert(r[i] == p[i]);
            }
        }
    }
}

/// Whether two byte strings are equal.
pub fn bytes_equal(a: &[u8], b: &[u8]) -> (r: bool)
    ensures
        r == (a@ == b@),
{
    if a.len() != b.len() {
        return false;
    }
    let n = a.len();
    for i in 0..n
        invariant
            n == a@.len(),
            n == b@.len(),
            forall|j: int| 0 <= j < i ==> a@[j] == b@[j],
    {
        if a[i] != b[i] {
            return false;
        }
    }
    assert(a@ =~= b@);
    true
}

/// Split `bytes` at every space.
pub fn split_at_spaces(bytes: &[u8]) -> (pieces: Vec<Vec<u8>>)
    ensures
        pieces@.map_values(|v: Vec<u8>| v@) == split_spaces(bytes@),
{
    let mut pieces: Vec<Vec<u8>> = Vec::new();
    let mut cur: Vec<u8> = Vec::new();
    let n = bytes.len();
    for i in 0..n
        invariant
            n == bytes@.len(),
            pieces@.map_values(|v: Vec<u8>| v@).push(cur@) == split_spaces(bytes@.take(i as int)),
    {
        let ghost old_pieces = pieces@.map_values(|v: Vec<u8>| v@);
        let ghost old_cur = cur@;
        let b = bytes[i];
        assert(bytes@.take(i + 1).drop_last() =~= bytes@.take(i as int));
        assert(bytes@.take(i + 1).last() == b);
        if b == SPACE {
            let done = cur;
            pieces.push(done);
            cur = Vec::new();
            assert(pieces@.map_values(|v: Vec<u8>| v@) =~= old_pieces.push(old_cur));
            assert(pieces@.map_values(|v: Vec<u8>| v@).push(cur@) =~= old_pieces.push(old_cur).push(
                Seq::<u8>::empty(),
            ));
        } else {
            cur.push(b);
            assert(pieces@.map_values(|v: Vec<u8>| v@) =~= old_pieces);
            let ghost p = old_pieces.push(old_cur);
            assert(p.update(p.len() - 1, p.last().push(b)) =~= old_pieces.push(old_cur.push(b)));
        }
    }
    let ghost before = pieces@.map_values(|v: Vec<u8>| v@);
    pieces.push(cur);
    assert(bytes@.take(n as int) =~= bytes@);
    assert(pieces@.map_values(|v: Vec<u8>| v@) =~= before.push(cur@));
    pieces
}

/// A set of extension names.
#[derive(Debug, PartialEq, Eq)]
pub struct ExtensionSet {
    names: Vec<Vec<u8>>,
}

impl Clone for ExtensionSet {
    /// A set with the same names.
    fn clone(&self) -> (r: Self)
        ensures
            r@ == self@,
    {
        let mut names: Vec<Vec<u8>> = Vec::new();
        let n = self.names.len();
        for i in 0..n
            invariant
                n == self.names@.len(),
                names@.len() == i,
                forall|j: int| 0 <= j < i ==> #[trigger] names@[j]@ == self.names@[j]@,
        {
            let copy = vstd::slice::slice_to_vec(self.names[i].as_slice());
            names.push(copy);
        }
        assert(names@.map_values(|v: Vec<u8>| v@) =~= self.names@.map_values(|v: Vec<u8>| v@));
        let r = ExtensionSet { names };
        assert(r@ =~= self@);
        r
    }
}

impl View for ExtensionSet {
    type V = Set<Seq<u8>>;

    closed spec fn view(&self) -> Set<Seq<u8>> {
        self.names@.map_values(|v: Vec<u8>| v@).to_set()
    }
}

impl ExtensionSet {
    /// Whether the set holds the name `name`.
    pub open spec fn spec_has(&self, name: &str) -> bool {
        self@.contains(name.spec_bytes())
    }

    /// The empty set.
    pub fn new() -> (r: Self)
        ensures
            r@ == Set::<Seq<u8>>::empty(),
    {
        let r = ExtensionSet { names: Vec::new() };
        assert(r@ =~= Set::<Seq<u8>>::empty());
        r
    }

    /// The names of a space separated extension list.
    pub fn parse(list: &[u8]) -> (r: Self)
        ensures
            r@ == split_spaces(list@).to_set(),
    {
        ExtensionSet { names: split_at_spaces(list) }
    }

    /// The names of a space separated extension string.
    pub fn from_str(list: &str) -> (r: Self)
        ensures
            r@ == split_spaces(list.spec_bytes()).to_set(),
    {
        ExtensionSet::parse(list.as_bytes())
    }

    /// Whether `name` is in the set.
    pub fn contains_bytes(&self, name: &[u8]) -> (r: bool)
        ensures
            r == self@.contains(name@),
    {
        let n = self.names.len();
        for i in 0..n
            invariant
                n == self.names@.len(),
                forall|j: int| 0 <= j < i ==> self.names@[j]@ != name@,
        {
            if bytes_equal(self.names[i].as_slice(), name) {
                assert(self.names@.map_values(|v: Vec<u8>| v@)[i as int] == name@);
                return true;
            }
        }
        assert(!self.names@.map_values(|v: Vec<u8>| v@).contains(name@));
        false
    }

    /// Whether `name` is in the set.
    pub fn contains(&self, name: &str) -> (r: bool)
        ensures
            r == self@.contains(name.spec_bytes()),
    {
        self.contains_bytes(name.as_bytes())
    }
}

} // verus!
