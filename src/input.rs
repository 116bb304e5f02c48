use vstd::prelude::*;
use std::collections::HashSet;

verus! {

broadcast use vstd::std_specs::hash::group_hash_axioms;

/// A key, by its virtual key code.
pub type KeyCode = u32;

/// The input gathered during one frame: the keys pressed, and the cell under
/// the pointer.
pub struct Update {
    mouse_pos: (i32, i32),
    pressed: HashSet<KeyCode>,
}

impl Update {
    /// The keys that are down.
    pub closed spec fn keys(&self) -> Set<KeyCode> {
        self.pressed@
    }

    /// The cell under the pointer, `(column, row)`.
    pub closed spec fn pointer(&self) -> (i32, i32) {
        self.mouse_pos
    }

    /// No key down, pointer at the top-left cell.
    pub fn new() -> (u: Update)
        ensures
            u.keys() == Set::<KeyCode>::empty(),
            u.pointer() == (0i32, 0i32),
    {
        Update { mouse_pos: (0, 0), pressed: HashSet::new() }
    }

    pub fn is_pressed(&self, key: KeyCode) -> (r: bool)
        ensures
            r == self.keys().contains(key),
    {
        self.pressed.contains(&key)
    }

    pub fn mouse_pos(&self) -> (r: (i32, i32))
        ensures
            r == self.pointer(),
    {
        self.mouse_pos
    }

    /// Records `key` as down; a key already down stays down once.
    pub fn press(&mut self, key: KeyCode)
        ensures
            final(self).keys() == old(self).keys().insert(key),
            final(self).pointer() == old(self).pointer(),
    {
        self.pressed.insert(key);
    }

    /// Records `key` as up.
    pub fn release(&mut self, key: KeyCode)
        ensures
            final(self).keys() == old(self).keys().remove(key),
            final(self).pointer() == old(self).pointer(),
    {
        self.pressed.remove(&key);
    }

    pub fn set_mouse_pos(&mut self, pos: (i32, i32))
        ensures
            final(self).keys() == old(self).keys(),
            final(self).pointer() == pos,
    {
        self.mouse_pos = pos;
    }

    /// Forgets every key; the pointer stays where it is.
    pub fn clear(&mut self)
        ensures
            final(self).keys() == Set::<KeyCode>::empty(),
            final(self).pointer() == old(self).pointer(),
    {
        self.pressed.clear();
    }
}

impl Default for Update {
    fn default() -> (u: Update)
        ensures
            u.keys() == Set::<KeyCode>::empty(),
            u.pointer() == (0i32, 0i32),
    {
        Update::new()
    }
}

/// A pressed key reads as pressed, a released key as not pressed, and a
/// second press of the same key leaves the set of keys, and its size, as the
/// first press left them.
pub proof fn lemma_press_release(keys: Set<KeyCode>, key: KeyCode)
    requires
        keys.finite(),
    ensures
        keys.insert(key).contains(key),
        !keys.insert(key).remove(key).contains(key),
        !keys.remove(key).contains(key),
        keys.insert(key).insert(key) == keys.insert(key),
        keys.insert(key).insert(key).len() == keys.insert(key).len(),
{
    assert(keys.insert(key).insert(key) =~= keys.insert(key));
}

} // verus!
