//! Whether an archive entry stays inside the directory it is extracted into.
//!
//! An entry path is read as components separated by `/`. Empty components
//! and `.` stay where they are, `..` climbs one level, and any other name
//! descends one. The entry stays inside when it is relative and no prefix
//! of its components climbs above the destination.
use vstd::prelude::*;
use vstd::string::*;

verus! {

/// The components of a path, in order, split at each `/`.
pub open spec fn components(p: Seq<char>) -> Seq<Seq<char>>
    decreases p.len(),
{
    if p.len() == 0 {
        seq![Seq::<char>::empty()]
    } else {
        let front = components(p.drop_last());
        if p.last() == '/' {
            front.push(Seq::<char>::empty())
        } else {
            front.update(front.len() - 1, front.last().push(p.last()))
        }
    }
}

/// How far one component moves: `..` climbs, empty and `.` stay, a name
/// descends.
pub open spec fn component_step(c: Seq<char>) -> int {
    if c == seq!['.', '.'] {
        -1
    } else if c.len() == 0 || c == seq!['.'] {
        0
    } else {
        1
    }
}

/// The depth reached after walking the components in order.
pub open spec fn depth_of(cs: Seq<Seq<char>>) -> int
    decreases cs.len(),
{
    if cs.len() == 0 {
        0
    } else {
        depth_of(cs.drop_last()) + component_step(cs.last())
    }
}

/// Whether the entry path stays inside the destination directory.
pub open spec fn entry_within(p: Seq<char>) -> bool {
    &&& !(p.len() > 0 && p[0] == '/')
    &&& forall|k: int|
        0 < k <= components(p).len() ==> depth_of(#[trigger] components(p).take(k)) >= 0
}

/// The shape of the component being read.
enum Part {
    Empty,
    Dot,
    DotDot,
    Name,
}

spec fn part_of(c: Seq<char>) -> Part {
    if c.len() == 0 {
        Part::Empty
    } else if c == seq!['.'] {
        Part::Dot
    } else if c == seq!['.', '.'] {
        Part::DotDot
    } else {
        Part::Name
    }
}

fn step_of(part: &Part) -> (r: i8)
    ensures
        r == match *part {
            Part::DotDot => -1int,
            Part::Empty | Part::Dot => 0,
            Part::Name => 1,
        },
{
    match part {
        Part::DotDot => -1,
        Part::Empty | Part::Dot => 0,
        Part::Name => 1,
    }
}

proof fn lemma_part_push(c: Seq<char>, ch: char)
    ensures
        part_of(c.push(ch)) == (match (part_of(c), ch) {
            (Part::Empty, '.') => Part::Dot,
            (Part::Dot, '.') => Part::DotDot,
            _ => Part::Name,
        }),
{
    let d = c.push(ch);
    assert(d.len() == c.len() + 1);
    assert(d[d.len() - 1] == ch);
    if c.len() == 0 && ch == '.' {
        assert(d =~= seq!['.']);
    } else if c == seq!['.'] && ch == '.' {
        assert(d =~= seq!['.', '.']);
    } else {
        if d == seq!['.'] {
            assert(c =~= d.drop_last());
        }
        if d == seq!['.', '.'] {
            assert(c =~= d.drop_last());
            assert(c =~= seq!['.']);
        }
    }
}

proof fn lemma_step_part(c: Seq<char>)
    ensures
        component_step(c) == match part_of(c) {
            Part::DotDot => -1int,
            Part::Empty | Part::Dot => 0,
            Part::Name => 1,
        },
{
    if c == seq!['.', '.'] {
        assert(c.len() == 2);
    }
}

proof fn lemma_components_len(p: Seq<char>)
    ensures
        components(p).len() >= 1,
    decreases p.len(),
{
    if p.len() > 0 {
        lemma_components_len(p.drop_last());
    }
}

/// Whether an archive entry whose path is `path` stays inside the
/// destination directory; extraction refuses the entries for which it does
/// not.
pub fn entry_is_contained(path: &str) -> (r: bool)
    ensures
        r == entry_within(path@),
{
    let n = path.unicode_len();
    if n > 0 && path.get_char(0) == '/' {
        return false;
    }
    let ghost p = path@;
    let mut depth: usize = 0;
    let mut part = Part::Empty;
    let mut i: usize = 0;
    proof {
        assert(p.take(0) =~= Seq::<char>::empty());
        assert(components(p.take(0)).take(0) =~= Seq::<Seq<char>>::empty());
    }
    while i < n
        invariant
            n == p.len(),
            p == path@,
            !(p.len() > 0 && p[0] == '/'),
            i <= n,
            depth <= i,
            components(p.take(i as int)).len() >= 1,
            part == part_of(components(p.take(i as int)).last()),
            depth as int == depth_of(
                components(p.take(i as int)).take(components(p.take(i as int)).len() - 1),
            ),
            forall|k: int|
                0 < k < components(p.take(i as int)).len() ==> depth_of(
                    #[trigger] components(p.take(i as int)).take(k),
                ) >= 0,
        decreases n - i,
    {
        let ch = path.get_char(i);
        let ghost cs = components(p.take(i as int));
        let ghost cs2 = components(p.take(i + 1));
        proof {
            assert(p.take(i + 1).drop_last() =~= p.take(i as int));
            assert(p.take(i + 1).last() == ch);
        }
        if ch == '/' {
            let s = step_of(&part);
            proof {
                lemma_step_part(cs.last());
                assert(cs2 == cs.push(Seq::<char>::empty()));
                assert(cs2.take(cs.len() as int) =~= cs);
                assert(cs.take(cs.len() as int) =~= cs);
                assert(cs.drop_last() =~= cs.take(cs.len() - 1));
            }
            if s < 0 {
                if depth == 0 {
                    proof {
                        lemma_components_len(p);
                        assert(depth_of(cs2.take(cs.len() as int)) < 0);
                        lemma_components_extend(p, (i + 1) as int, n as int);
                        assert(p.take(n as int) =~= p);
                        assert(components(p).take(cs.len() as int) =~= cs2.take(
                            cs.len() as int,
                        ));
                    }
                    return false;
                }
                depth = depth - 1;
            } else if s > 0 {
                depth = depth + 1;
            }
            part = Part::Empty;
            proof {
                assert forall|k: int| 0 < k < cs2.len() implies depth_of(
                    #[trigger] cs2.take(k),
                ) >= 0 by {
                    if k < cs.len() {
                        assert(cs2.take(k) =~= cs.take(k));
                    }
                }
            }
        } else {
            proof {
                lemma_part_push(cs.last(), ch);
                assert(cs2 == cs.update(cs.len() - 1, cs.last().push(ch)));
                assert(cs2.last() == cs.last().push(ch));
                assert(cs2.take(cs2.len() - 1) =~= cs.take(cs.len() - 1));
                assert forall|k: int| 0 < k < cs2.len() implies depth_of(
                    #[trigger] cs2.take(k),
                ) >= 0 by {
                    assert(cs2.take(k) =~= cs.take(k));
                }
            }
            part = match (part, ch) {
                (Part::Empty, '.') => Part::Dot,
                (Part::Dot, '.') => Part::DotDot,
                _ => Part::Name,
            };
        }
        i = i + 1;
    }
    let s = step_of(&part);
    proof {
        let cs = components(p.take(n as int));
        assert(p.take(n as int) =~= p);
        lemma_step_part(cs.last());
        assert(cs.take(cs.len() as int) =~= cs);
        assert(cs.drop_last() =~= cs.take(cs.len() - 1));
    }
    s >= 0 || depth > 0
}

/// An entry that starts by climbing out of the destination, `../<rest>`,
/// or that is absolute, `/<rest>`, does not stay inside it, whatever follows.
pub proof fn lemma_climbing_entries_escape(rest: Seq<char>)
    ensures
        !entry_within(seq!['.', '.', '/'] + rest),
        !entry_within(seq!['/'] + rest),
{
    let p = seq!['.', '.', '/'] + rest;
    assert((seq!['/'] + rest)[0] == '/');
    assert(p.take(3) =~= seq!['.', '.', '/']);
    assert(p.take(3).drop_last() =~= seq!['.', '.']);
    assert(seq!['.', '.'].drop_last() =~= seq!['.']);
    assert(seq!['.'].drop_last() =~= Seq::<char>::empty());
    let c0 = components(Seq::<char>::empty());
    assert(c0 == seq![Seq::<char>::empty()]);
    let c1 = components(seq!['.']);
    assert(c1 == c0.update(0, Seq::<char>::empty().push('.')));
    assert(c1 =~= seq![seq!['.']]);
    let c2 = components(seq!['.', '.']);
    assert(seq!['.'].push('.') =~= seq!['.', '.']);
    assert(c2 == c1.update(0, seq!['.'].push('.')));
    assert(c2 =~= seq![seq!['.', '.']]);
    let c3 = components(p.take(3));
    assert(c3 == c2.push(Seq::<char>::empty()));
    lemma_components_extend(p, 3, p.len() as int);
    assert(p.take(p.len() as int) =~= p);
    let first = components(p).take(1);
    assert(first == c3.take(1));
    assert(first =~= seq![seq!['.', '.']]);
    assert(first.drop_last() =~= Seq::<Seq<char>>::empty());
    assert(first.last() == seq!['.', '.']);
    assert(depth_of(first.drop_last()) == 0);
    assert(component_step(first.last()) == -1);
    assert(depth_of(first) == -1);
    lemma_components_len(p);
}

/// Extending a path changes none of its completed components.
proof fn lemma_components_extend(p: Seq<char>, i: int, j: int)
    requires
        0 <= i <= j <= p.len(),
        i > 0 && p[i - 1] == '/',
    ensures
        components(p.take(j)).len() >= components(p.take(i)).len(),
        components(p.take(j)).take(components(p.take(i)).len() - 1) == components(p.take(i)).take(
            components(p.take(i)).len() - 1,
        ),
    decreases j - i,
{
    if j > i {
        lemma_components_extend(p, i, j - 1);
        assert(p.take(j).drop_last() =~= p.take(j - 1));
        lemma_components_len(p.take(j - 1));
        let a = components(p.take(j - 1));
        let b = components(p.take(j));
        let m = components(p.take(i)).len() - 1;
        lemma_components_len(p.take(i));
        assert(b.take(m) =~= a.take(m));
    }
}

} // verus!
