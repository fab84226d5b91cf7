use vstd::prelude::*;

verus! {

/// The substring that QEMU's emulated processors put in their brand string.
pub open spec fn qemu_marker() -> Seq<char> {
    seq!['Q', 'E', 'M', 'U']
}

/// Whether the marker starts at position `i` of `s`.
pub open spec fn marker_at(s: Seq<char>, i: int) -> bool {
    0 <= i && i + 4 <= s.len() && s.subrange(i, i + 4) == qemu_marker()
}

/// Whether `s` contains the marker anywhere.
pub open spec fn contains_marker(s: Seq<char>) -> bool {
    exists|i: int| #[trigger] marker_at(s, i)
}

/// Whether the brand string `s` contains "QEMU" anywhere in it.
pub fn contains_qemu_marker(s: &str) -> (r: bool)
    ensures
        r == contains_marker(s@),
{
    let n = s.unicode_len();
    let mut i: usize = 0;
    while n >= 4 && i <= n - 4
        invariant
            n == s@.len(),
            i <= n,
            forall|j: int| 0 <= j < i ==> !marker_at(s@, j),
        decreases n - i,
    {
        if s.get_char(i) == 'Q' && s.get_char(i + 1) == 'E' && s.get_char(i + 2) == 'M'
            && s.get_char(i + 3) == 'U' {
            assert(s@.subrange(i as int, i + 4) =~= qemu_marker());
            assert(marker_at(s@, i as int));
            return true;
        }
        assert(!marker_at(s@, i as int)) by {
            if marker_at(s@, i as int) {
                let sub = s@.subrange(i as int, i + 4);
                assert(sub[0] == s@[i as int] && sub[1] == s@[i + 1]);
                assert(sub[2] == s@[i + 2] && sub[3] == s@[i + 3]);
            }
        }
        i = i + 1;
    }
    assert forall|j: int| !marker_at(s@, j) by {
        if 0 <= j < i {
        }
    }
    false
}

} // verus!
