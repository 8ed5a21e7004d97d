//! Batch scanning over many ROM images: collecting titles, and collecting
//! the distinct 4-byte entry points in sorted order.

use vstd::prelude::*;

use crate::errors::JayBoyError;
use crate::roms::cart::spec_entry_point;
use crate::roms::cart::spec_title_or_empty;
use crate::roms::cart::Cartridge;
use crate::text::gb_str;

verus! {

/// The natural order on 4-byte entry points: byte-sequence order, unsigned,
/// most significant position first.
pub open spec fn spec_ep_lt(a: Seq<u8>, b: Seq<u8>) -> bool {
    ||| a[0] < b[0]
    ||| (a[0] == b[0] && a[1] < b[1])
    ||| (a[0] == b[0] && a[1] == b[1] && a[2] < b[2])
    ||| (a[0] == b[0] && a[1] == b[1] && a[2] == b[2] && a[3] < b[3])
}

/// A sequence of entry points in strictly ascending order (so without
/// duplicates).
pub open spec fn spec_ep_sorted(s: Seq<[u8; 4]>) -> bool {
    forall|i: int, j: int|
        0 <= i < j < s.len() ==> spec_ep_lt(#[trigger] s[i]@, #[trigger] s[j]@)
}

/// Whether `s` holds the entry point `x`.
pub open spec fn spec_ep_contains(s: Seq<[u8; 4]>, x: Seq<u8>) -> bool {
    exists|k: int| 0 <= k < s.len() && (#[trigger] s[k])@ == x
}

/// Whether `x` is the entry point of one of the first `n` images.
pub open spec fn spec_ep_from(roms: Seq<Vec<u8>>, n: int, x: Seq<u8>) -> bool {
    exists|j: int| 0 <= j < n && x == spec_entry_point((#[trigger] roms[j])@)
}

/// Entry points of length four that are neither ordered one way nor the
/// other are equal.
proof fn lemma_ep_trichotomy(a: [u8; 4], b: [u8; 4])
    requires
        !spec_ep_lt(a@, b@),
        !spec_ep_lt(b@, a@),
    ensures
        a@ == b@,
{
    assert(a@ =~= b@);
}

/// The entry-point order is transitive.
proof fn lemma_ep_lt_trans(a: Seq<u8>, b: Seq<u8>, c: Seq<u8>)
    requires
        spec_ep_lt(a, b),
        spec_ep_lt(b, c),
    ensures
        spec_ep_lt(a, c),
{
}

/// Compares two entry points in the natural byte-sequence order.
fn ep_lt(a: [u8; 4], b: [u8; 4]) -> (r: bool)
    ensures
        r == spec_ep_lt(a@, b@),
{
    if a[0] != b[0] {
        a[0] < b[0]
    } else if a[1] != b[1] {
        a[1] < b[1]
    } else if a[2] != b[2] {
        a[2] < b[2]
    } else {
        a[3] < b[3]
    }
}

/// Whether two entry points hold the same bytes.
fn ep_eq(a: [u8; 4], b: [u8; 4]) -> (r: bool)
    ensures
        r == (a@ == b@),
{
    let r = a[0] == b[0] && a[1] == b[1] && a[2] == b[2] && a[3] == b[3];
    proof {
        if r {
            assert(a@ =~= b@);
        }
    }
    r
}

/// Inserts `ep` into a strictly sorted vector, keeping it strictly sorted;
/// a duplicate is dropped.
fn insert_entry_point(points: &mut Vec<[u8; 4]>, ep: [u8; 4])
    requires
        spec_ep_sorted(old(points)@),
    ensures
        spec_ep_sorted(final(points)@),
        forall|x: Seq<u8>|
            #[trigger] spec_ep_contains(final(points)@, x) <==> (spec_ep_contains(
                old(points)@,
                x,
            ) || x == ep@),
{
    let ghost orig = points@;
    let mut pos: usize = 0;
    while pos < points.len() && ep_lt(points[pos], ep)
        invariant
            points@ == orig,
            spec_ep_sorted(orig),
            0 <= pos <= orig.len(),
            forall|k: int| 0 <= k < pos ==> spec_ep_lt((#[trigger] orig[k])@, ep@),
        decreases points@.len() - pos,
    {
        pos = pos + 1;
    }
    if pos < points.len() {
        if ep_eq(points[pos], ep) {
            proof {
                assert forall|x: Seq<u8>|
                    #[trigger] spec_ep_contains(points@, x) <==> (spec_ep_contains(orig, x) || x
                        == ep@) by {
                    if x == ep@ {
                        assert(points@[pos as int]@ == x);
                        assert(spec_ep_contains(points@, x));
                    }
                }
            }
            return ;
        }
    }
    proof {
        if pos < orig.len() {
            if !spec_ep_lt(ep@, orig[pos as int]@) {
                lemma_ep_trichotomy(orig[pos as int], ep);
                assert(false);
            }
        }
    }
    points.insert(pos, ep);
    proof {
        let updated = points@;
        assert(updated == orig.insert(pos as int, ep));
        assert forall|i: int, j: int| 0 <= i < j < updated.len() implies spec_ep_lt(
            #[trigger] updated[i]@,
            #[trigger] updated[j]@,
        ) by {
            if i < pos && j < pos {
            } else if i < pos && j == pos {
            } else if i < pos && j > pos {
            } else if i == pos && j > pos {
                assert(updated[j] == orig[j - 1]);
                if j - 1 > pos {
                    lemma_ep_lt_trans(ep@, orig[pos as int]@, orig[j - 1]@);
                }
            } else if i > pos {
                assert(updated[i] == orig[i - 1] && updated[j] == orig[j - 1]);
            }
        }
        assert forall|x: Seq<u8>|
            #[trigger] spec_ep_contains(updated, x) <==> (spec_ep_contains(orig, x) || x
                == ep@) by {
            if spec_ep_contains(updated, x) {
                let k = choose|k: int| 0 <= k < updated.len() && (#[trigger] updated[k])@ == x;
                if k < pos {
                    assert(orig[k]@ == x);
                } else if k == pos {
                } else {
                    assert(orig[k - 1]@ == x);
                }
            }
            if spec_ep_contains(orig, x) {
                let k = choose|k: int| 0 <= k < orig.len() && (#[trigger] orig[k])@ == x;
                if k < pos {
                    assert(updated[k]@ == x);
                } else {
                    assert(updated[k + 1]@ == x);
                }
            }
            if x == ep@ {
                assert(updated[pos as int]@ == x);
            }
        }
    }
}

/// Batch scanning entry points.
pub struct RomScanner;

impl RomScanner {
    /// The titles of the given cartridges, in order; a cartridge whose
    /// title bytes are not all ASCII contributes the empty text.
    pub fn scan_titles(carts: &Vec<Cartridge>) -> (r: Vec<gb_str>)
        requires
            forall|i: int| 0 <= i < carts@.len() ==> (#[trigger] carts@[i]).wf(),
        ensures
            r@.len() == carts@.len(),
            forall|i: int|
                0 <= i < carts@.len() ==> (#[trigger] r@[i])@ == spec_title_or_empty(
                    carts@[i].spec_bytes(),
                ),
    {
        let mut titles: Vec<gb_str> = Vec::new();
        let mut i: usize = 0;
        while i < carts.len()
            invariant
                forall|k: int| 0 <= k < carts@.len() ==> (#[trigger] carts@[k]).wf(),
                0 <= i <= carts@.len(),
                titles@.len() == i,
                forall|k: int|
                    0 <= k < i ==> (#[trigger] titles@[k])@ == spec_title_or_empty(
                        carts@[k].spec_bytes(),
                    ),
            decreases carts@.len() - i,
        {
            let title = match carts[i].title() {
                Some(t) => t,
                None => gb_str::empty(),
            };
            titles.push(title);
            i = i + 1;
        }
        titles
    }

    /// The distinct 4-byte entry points of the given images, in the natural
    /// byte-sequence order: duplicates across images collapse to one
    /// representative.  An image too short to hold the entry-point region
    /// fails the scan, with the start and end failures kept distinct.
    pub fn scan_entry_points(roms: &Vec<Vec<u8>>) -> (r: Result<Vec<[u8; 4]>, JayBoyError>)
        ensures
            (match r {
                Ok(points) => {
                    &&& forall|m: int| 0 <= m < roms@.len() ==> (#[trigger] roms@[m])@.len() >= 0x104
                    &&& spec_ep_sorted(points@)
                    &&& forall|k: int|
                        0 <= k < points@.len() ==> spec_ep_from(
                            roms@,
                            roms@.len() as int,
                            (#[trigger] points@[k])@,
                        )
                    &&& forall|m: int|
                        0 <= m < roms@.len() ==> spec_ep_contains(
                            points@,
                            spec_entry_point((#[trigger] roms@[m])@),
                        )
                },
                Err(e) => {
                    exists|m: int|
                        {
                            &&& 0 <= m < roms@.len()
                            &&& (#[trigger] roms@[m])@.len() < 0x104
                            &&& (forall|j: int| 0 <= j < m ==> (#[trigger] roms@[j])@.len() >= 0x104)
                            &&& e == (if roms@[m]@.len() <= 0x100 {
                                JayBoyError::StartOutOfRange
                            } else {
                                JayBoyError::EndOutOfRange
                            })
                        }
                },
            }),
    {
        let mut entry_points: Vec<[u8; 4]> = Vec::new();
        let mut m: usize = 0;
        while m < roms.len()
            invariant
                0 <= m <= roms@.len(),
                forall|j: int| 0 <= j < m ==> (#[trigger] roms@[j])@.len() >= 0x104,
                spec_ep_sorted(entry_points@),
                forall|k: int|
                    0 <= k < entry_points@.len() ==> spec_ep_from(
                        roms@,
                        m as int,
                        (#[trigger] entry_points@[k])@,
                    ),
                forall|j: int|
                    0 <= j < m ==> spec_ep_contains(
                        entry_points@,
                        spec_entry_point((#[trigger] roms@[j])@),
                    ),
            decreases roms@.len() - m,
        {
            let rom = &roms[m];
            if rom.len() <= 0x100 {
                return Err(JayBoyError::StartOutOfRange);
            }
            if rom.len() < 0x104 {
                return Err(JayBoyError::EndOutOfRange);
            }
            let ep: [u8; 4] = [rom[0x100], rom[0x101], rom[0x102], rom[0x103]];
            proof {
                assert(ep@ =~= spec_entry_point(roms@[m as int]@));
            }
            let ghost before = entry_points@;
            insert_entry_point(&mut entry_points, ep);
            proof {
                let updated = entry_points@;
                assert forall|k: int| 0 <= k < updated.len() implies spec_ep_from(
                    roms@,
                    m + 1 as int,
                    (#[trigger] updated[k])@,
                ) by {
                    let x = updated[k]@;
                    assert(spec_ep_contains(updated, x));
                    if spec_ep_contains(before, x) {
                        assert(spec_ep_from(roms@, m as int, x));
                        let j = choose|j: int|
                            0 <= j < m && x == spec_entry_point((#[trigger] roms@[j])@);
                        assert(0 <= j < m + 1 && x == spec_entry_point(roms@[j]@));
                    } else {
                        assert(x == ep@);
                        assert(0 <= m < m + 1 && x == spec_entry_point(roms@[m as int]@));
                    }
                }
                assert forall|j: int| 0 <= j <= m implies spec_ep_contains(
                    updated,
                    spec_entry_point((#[trigger] roms@[j])@),
                ) by {
                    if j < m {
                        assert(spec_ep_contains(before, spec_entry_point(roms@[j]@)));
                    } else {
                        assert(spec_ep_contains(updated, ep@));
                    }
                }
            }
            m = m + 1;
        }
        Ok(entry_points)
    }
}

} // verus!
