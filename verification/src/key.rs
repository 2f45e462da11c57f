use vstd::prelude::*;

verus! {

/// A keyboard key, as reported by the global key listener.
#[derive(Clone, Copy, Debug, PartialEq, Eq, Structural, Hash)]
pub enum Key {
    Alt,
    AltGr,
    Backspace,
    CapsLock,
    ControlLeft,
    ControlRight,
    Delete,
    DownArrow,
    End,
    Escape,
    F1,
    F10,
    F11,
    F12,
    F2,
    F3,
    F4,
    F5,
    F6,
    F7,
    F8,
    F9,
    Home,
    LeftArrow,
    MetaLeft,
    MetaRight,
    PageDown,
    PageUp,
    Return,
    RightArrow,
    ShiftLeft,
    ShiftRight,
    Space,
    Tab,
    UpArrow,
    PrintScreen,
    ScrollLock,
    Pause,
    NumLock,
    BackQuote,
    Num1,
    Num2,
    Num3,
    Num4,
    Num5,
    Num6,
    Num7,
    Num8,
    Num9,
    Num0,
    Minus,
    Equal,
    KeyQ,
    KeyW,
    KeyE,
    KeyR,
    KeyT,
    KeyY,
    KeyU,
    KeyI,
    KeyO,
    KeyP,
    LeftBracket,
    RightBracket,
    KeyA,
    KeyS,
    KeyD,
    KeyF,
    KeyG,
    KeyH,
    KeyJ,
    KeyK,
    KeyL,
    SemiColon,
    Quote,
    BackSlash,
    IntlBackslash,
    KeyZ,
    KeyX,
    KeyC,
    KeyV,
    KeyB,
    KeyN,
    KeyM,
    Comma,
    Dot,
    Slash,
    Insert,
    KpReturn,
    KpMinus,
    KpPlus,
    KpMultiply,
    KpDivide,
    Kp0,
    Kp1,
    Kp2,
    Kp3,
    Kp4,
    Kp5,
    Kp6,
    Kp7,
    Kp8,
    Kp9,
    KpDelete,
    Function,
    Unknown(u32),
}

/// The key with its sidedness removed: right-hand Control, Meta and Shift
/// count as their left-hand counterparts.
pub open spec fn spec_side_neutral(k: Key) -> Key {
    match k {
        Key::ControlRight => Key::ControlLeft,
        Key::MetaRight => Key::MetaLeft,
        Key::ShiftRight => Key::ShiftLeft,
        other => other,
    }
}

/// Removes the sidedness of a modifier key.
pub fn side_neutral(k: Key) -> (r: Key)
    ensures
        r == spec_side_neutral(k),
{
    match k {
        Key::ControlRight => Key::ControlLeft,
        Key::MetaRight => Key::MetaLeft,
        Key::ShiftRight => Key::ShiftLeft,
        other => other,
    }
}

/// A finite set of keys, kept as a vector without repetitions.
#[derive(Debug)]
pub struct KeySet {
    keys: Vec<Key>,
}

impl View for KeySet {
    type V = Set<Key>;

    closed spec fn view(&self) -> Set<Key> {
        self.keys@.to_set()
    }
}

impl KeySet {
    /// No key occurs twice in the backing vector.
    #[verifier::type_invariant]
    spec fn no_repeats(&self) -> bool {
        self.keys@.no_duplicates()
    }

    /// The empty set.
    pub fn new() -> (s: Self)
        ensures
            s@ == Set::<Key>::empty(),
    {
        let s = KeySet { keys: Vec::new() };
        assert(s.keys@.to_set() =~= Set::<Key>::empty());
        s
    }

    /// Number of keys in the set.
    pub fn len(&self) -> (n: usize)
        ensures
            n == self@.len(),
    {
        proof {
            use_type_invariant(self);
            self.keys@.unique_seq_to_set();
        }
        self.keys.len()
    }

    /// Whether `k` is in the set.
    pub fn contains(&self, k: Key) -> (b: bool)
        ensures
            b == self@.contains(k),
    {
        let mut i: usize = 0;
        while i < self.keys.len()
            invariant
                i <= self.keys@.len(),
                forall|j: int| 0 <= j < i ==> self.keys@[j] != k,
            decreases self.keys@.len() - i,
        {
            if self.keys[i] == k {
                assert(self.keys@.contains(k));
                return true;
            }
            i = i + 1;
        }
        false
    }

    /// Adds `k` to the set.
    pub fn insert(&mut self, k: Key)
        ensures
            final(self)@ == old(self)@.insert(k),
    {
        proof {
            use_type_invariant(&*self);
        }
        if !self.contains(k) {
            let mut keys: Vec<Key> = Vec::new();
            std::mem::swap(&mut keys, &mut self.keys);
            let ghost before = keys@;
            keys.push(k);
            assert(keys@ == before.push(k));
            assert(keys@.to_set() =~= before.to_set().insert(k)) by {
                assert forall|x: Key| keys@.contains(x) <==> (before.contains(x) || x == k) by {
                    if before.contains(x) {
                        let j = choose|j: int| 0 <= j < before.len() && before[j] == x;
                        assert(keys@[j] == x);
                    }
                    if x == k {
                        assert(keys@[before.len() as int] == k);
                    }
                }
            }
            self.keys = keys;
        } else {
            assert(self.keys@.to_set() =~= self.keys@.to_set().insert(k));
        }
    }

    /// Removes `k` from the set.
    pub fn remove(&mut self, k: Key)
        ensures
            final(self)@ == old(self)@.remove(k),
    {
        proof {
            use_type_invariant(&*self);
        }
        let ghost before = self.keys@;
        let mut i: usize = 0;
        while i < self.keys.len()
            invariant
                self.keys@ == before,
                before == old(self).keys@,
                before.no_duplicates(),
                i <= before.len(),
                forall|j: int| 0 <= j < i ==> before[j] != k,
            decreases before.len() - i,
        {
            if self.keys[i] == k {
                let mut keys: Vec<Key> = Vec::new();
                std::mem::swap(&mut keys, &mut self.keys);
                let _ = keys.remove(i);
                proof {
                    let after = keys@;
                    assert(after =~= before.subrange(0, i as int) + before.subrange(i + 1, before.len() as int));
                    assert forall|a: int, b: int| 0 <= a < after.len() && 0 <= b < after.len() && a != b
                        implies after[a] != after[b] by {
                        let ia = if a < i { a } else { a + 1 };
                        let ib = if b < i { b } else { b + 1 };
                        assert(after[a] == before[ia]);
                        assert(after[b] == before[ib]);
                    }
                    assert forall|x: Key| after.contains(x) <==> (before.contains(x) && x != k) by {
                        if after.contains(x) {
                            let j = choose|j: int| 0 <= j < after.len() && after[j] == x;
                            let ij = if j < i { j } else { j + 1 };
                            assert(before[ij] == x);
                            assert(ij != i);
                        }
                        if before.contains(x) && x != k {
                            let j = choose|j: int| 0 <= j < before.len() && before[j] == x;
                            assert(j != i);
                            if j < i {
                                assert(after[j] == x);
                            } else {
                                assert(after[j - 1] == x);
                            }
                        }
                    }
                    assert(after.to_set() =~= before.to_set().remove(k));
                }
                self.keys = keys;
                return;
            }
            i = i + 1;
        }
        assert(!before.contains(k));
        assert(self.keys@.to_set() =~= before.to_set().remove(k));
    }

    /// Whether both sets hold exactly the same keys.
    pub fn same_keys(&self, other: &KeySet) -> (b: bool)
        ensures
            b == (self@ == other@),
    {
        let mut i: usize = 0;
        while i < self.keys.len()
            invariant
                i <= self.keys@.len(),
                forall|j: int| 0 <= j < i ==> other@.contains(#[trigger] self.keys@[j]),
            decreases self.keys@.len() - i,
        {
            if !other.contains(self.keys[i]) {
                assert(self@.contains(self.keys@[i as int]));
                return false;
            }
            i = i + 1;
        }
        let mut i: usize = 0;
        while i < other.keys.len()
            invariant
                i <= other.keys@.len(),
                forall|j: int| 0 <= j < i ==> self@.contains(#[trigger] other.keys@[j]),
            decreases other.keys@.len() - i,
        {
            if !self.contains(other.keys[i]) {
                assert(other@.contains(other.keys@[i as int]));
                return false;
            }
            i = i + 1;
        }
        assert forall|x: Key| self@.contains(x) <==> other@.contains(x) by {
            if self@.contains(x) {
                let j = choose|j: int| 0 <= j < self.keys@.len() && self.keys@[j] == x;
            }
            if other@.contains(x) {
                let j = choose|j: int| 0 <= j < other.keys@.len() && other.keys@[j] == x;
            }
        }
        assert(self@ =~= other@);
        true
    }
}

} // verus!
