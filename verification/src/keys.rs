//! Discrete key identifiers and the membership test that decides whether any
//! key of a binding list is currently pressed.

use vstd::prelude::*;

verus! {

/// A key identifier: the named keys the default bindings use, plus an open
/// variant carrying any other device code, so bindings are not limited to
/// the named set.  The host maps whatever codes it receives onto these
/// before each frame; the update only ever compares keys for equality.
#[derive(Clone, Copy, Debug, PartialEq, Eq, Structural)]
pub enum KeyCode {
    Equals,
    NumpadAdd,
    NumpadSubtract,
    Minus,
    Left,
    A,
    Right,
    D,
    Up,
    W,
    Down,
    S,
    Q,
    E,
    Other(u32),
}

/// Holds when some key of the binding list `keys` occurs in `pressed`.
pub open spec fn spec_any_pressed(keys: Seq<KeyCode>, pressed: Seq<KeyCode>) -> bool {
    exists|i: int| 0 <= i < keys.len() && pressed.contains(keys[i])
}

/// Whether `key` occurs in `pressed`.
pub fn key_pressed(pressed: &Vec<KeyCode>, key: KeyCode) -> (r: bool)
    ensures
        r == pressed@.contains(key),
{
    let mut i: usize = 0;
    while i < pressed.len()
        invariant
            0 <= i <= pressed@.len(),
            forall|j: int| 0 <= j < i ==> pressed@[j] != key,
        decreases pressed@.len() - i,
    {
        if pressed[i] == key {
            proof {
                assert(pressed@[i as int] == key);
            }
            return true;
        }
        i = i + 1;
    }
    false
}

/// Whether any key of the binding list `keys` is currently pressed.
pub fn any_pressed(keys: &Vec<KeyCode>, pressed: &Vec<KeyCode>) -> (r: bool)
    ensures
        r == spec_any_pressed(keys@, pressed@),
{
    let mut i: usize = 0;
    while i < keys.len()
        invariant
            0 <= i <= keys@.len(),
            forall|j: int| 0 <= j < i ==> !pressed@.contains(keys@[j]),
        decreases keys@.len() - i,
    {
        if key_pressed(pressed, keys[i]) {
            proof {
                assert(pressed@.contains(keys@[i as int]));
            }
            return true;
        }
        i = i + 1;
    }
    false
}

} // verus!
