use vstd::prelude::*;

verus! {

/// The logical keys held down during a frame.
#[derive(Clone, Copy, Debug, PartialEq, Eq, Structural)]
pub struct Keys {
    pub left: bool,
    pub right: bool,
    pub start: bool,
}

/// Horizontal intent of the held keys: left counts -1, right counts +1, so
/// both together cancel out.
pub open spec fn intent_of(keys: Keys) -> int {
    (if keys.right { 1int } else { 0int }) - (if keys.left { 1int } else { 0int })
}

/// The horizontal direction that the held keys ask for.
pub fn horizontal_intent(keys: &Keys) -> (r: i64)
    ensures
        r == intent_of(*keys),
{
    let mut direction: i64 = 0;
    if keys.left {
        direction = direction - 1;
    }
    if keys.right {
        direction = direction + 1;
    }
    direction
}

} // verus!
