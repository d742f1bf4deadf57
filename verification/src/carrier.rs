//! A pair of borrowed parent and state, handed to callbacks together.

use vstd::prelude::*;

verus! {

pub struct Carrier<'parent, 'state, Parent: 'parent, State: 'state> {
    pub parent: &'parent mut Parent,
    pub state: &'state mut State,
}

} // verus!
