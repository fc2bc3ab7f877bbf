use vstd::prelude::*;

verus! {

/// A key press, as the interface's input handlers see it.
#[derive(Debug, Clone, Copy, PartialEq, Eq, Structural)]
pub enum Key {
    Up,
    Down,
    Left,
    Right,
    Enter,
    Esc,
    Tab,
    Backspace,
    Delete,
    PageUp,
    PageDown,
    Home,
    End,
    Char(char),
    Other,
}

/// `(index + 1) mod len`: the next position in a list of `len` items, wrapping.
pub open spec fn cycle_next(index: int, len: int) -> int {
    (index + 1) % len
}

/// `(index + len - 1) mod len`: the previous position, wrapping.
pub open spec fn cycle_prev(index: int, len: int) -> int {
    (index + len - 1) % len
}

/// The next position in a list of `len > 0` items, wrapping to the start.
pub fn wrap_next(index: usize, len: usize) -> (r: usize)
    requires
        len > 0,
    ensures
        r == cycle_next(index as int, len as int),
        r < len,
{
    proof {
        vstd::arithmetic::div_mod::lemma_add_mod_noop_right(1, index as int, len as int);
        vstd::arithmetic::div_mod::lemma_mod_bound(index as int + 1, len as int);
    }
    (index % len + 1) % len
}

/// The previous position in a list of `len > 0` items, wrapping to the end.
pub fn wrap_prev(index: usize, len: usize) -> (r: usize)
    requires
        len > 0,
    ensures
        r == cycle_prev(index as int, len as int),
        r < len,
{
    let i = index % len;
    proof {
        vstd::arithmetic::div_mod::lemma_add_mod_noop_right(len - 1, index as int, len as int);
        vstd::arithmetic::div_mod::lemma_mod_bound(index as int, len as int);
        if i == 0 {
            vstd::arithmetic::div_mod::lemma_small_mod((len - 1) as nat, len as nat);
        } else {
            vstd::arithmetic::div_mod::lemma_mod_add_multiples_vanish(i - 1, len as int);
            vstd::arithmetic::div_mod::lemma_small_mod((i - 1) as nat, len as nat);
        }
    }
    if i == 0 {
        len - 1
    } else {
        i - 1
    }
}

/// Moving forward and then back in a wrapping list returns to the start
/// position, and so does moving back and then forward.
pub proof fn lemma_cycle_round_trip(index: int, len: int)
    requires
        0 <= index < len,
    ensures
        cycle_prev(cycle_next(index, len), len) == index,
        cycle_next(cycle_prev(index, len), len) == index,
{
    if index + 1 < len {
        vstd::arithmetic::div_mod::lemma_small_mod((index + 1) as nat, len as nat);
    } else {
        vstd::arithmetic::div_mod::lemma_mod_self_0(len);
    }
    if index > 0 {
        vstd::arithmetic::div_mod::lemma_mod_add_multiples_vanish(index - 1, len);
        vstd::arithmetic::div_mod::lemma_small_mod((index - 1) as nat, len as nat);
    } else {
        vstd::arithmetic::div_mod::lemma_small_mod((len - 1) as nat, len as nat);
    }
    let n = cycle_next(index, len);
    vstd::arithmetic::div_mod::lemma_mod_bound(index + 1, len);
    if n > 0 {
        vstd::arithmetic::div_mod::lemma_mod_add_multiples_vanish(n - 1, len);
        vstd::arithmetic::div_mod::lemma_small_mod((n - 1) as nat, len as nat);
    } else {
        vstd::arithmetic::div_mod::lemma_small_mod((len - 1) as nat, len as nat);
    }
    let p = cycle_prev(index, len);
    vstd::arithmetic::div_mod::lemma_mod_bound(index + len - 1, len);
    if p + 1 < len {
        vstd::arithmetic::div_mod::lemma_small_mod((p + 1) as nat, len as nat);
    } else {
        vstd::arithmetic::div_mod::lemma_mod_self_0(len);
    }
}

} // verus!
