//! Keyboard state: the set of physical keys held down, and the table that
//! maps a textual key label of the browser onto a physical key.
use vstd::prelude::*;
use winit::keyboard::{KeyCode, NativeKeyCode, PhysicalKey};

verus! {

// winit's key identifiers are plain enums; they are declared with their
// variants, so that verified code can build keys and compare them as values.
#[verifier::external_type_specification]
pub struct ExKeyCode(KeyCode);

#[verifier::external_type_specification]
pub struct ExNativeKeyCode(NativeKeyCode);

#[verifier::external_type_specification]
pub struct ExPhysicalKey(PhysicalKey);

/// What `str::to_lowercase` makes of a string.
pub uninterp spec fn lower_of(s: Seq<char>) -> Seq<char>;

/// Relies on `str::to_lowercase`: the result depends on the characters alone.
#[verifier::external_body]
fn lowercase(s: &str) -> (r: String)
    ensures
        r@ == lower_of(s@),
{
    s.to_lowercase()
}

/// Relies on the `PartialEq` that winit derives for `PhysicalKey`: two keys
/// compare equal exactly when they are the same value.
#[verifier::external_body]
fn same_key(a: &PhysicalKey, b: &PhysicalKey) -> (r: bool)
    ensures
        r == (*a == *b),
{
    a == b
}

/// The physical key that a lower-case key label stands for, if the table has it.
pub open spec fn label_code(label: Seq<char>) -> Option<KeyCode> {
    if label == "shift"@ {
        Some(KeyCode::ShiftLeft)
    } else if label == "w"@ {
        Some(KeyCode::KeyW)
    } else if label == "a"@ {
        Some(KeyCode::KeyA)
    } else if label == "s"@ {
        Some(KeyCode::KeyS)
    } else if label == "d"@ {
        Some(KeyCode::KeyD)
    } else {
        None
    }
}

fn label_is(label: &String, entry: &str) -> (r: bool)
    ensures
        r == (label@ == entry@),
{
    *label == entry.to_owned()
}

/// Looks up a label that is already in lower case.
pub fn keycode_for_lowered(lowered: &String) -> (r: Option<KeyCode>)
    ensures
        r == label_code(lowered@),
{
    if label_is(lowered, "shift") {
        Some(KeyCode::ShiftLeft)
    } else if label_is(lowered, "w") {
        Some(KeyCode::KeyW)
    } else if label_is(lowered, "a") {
        Some(KeyCode::KeyA)
    } else if label_is(lowered, "s") {
        Some(KeyCode::KeyS)
    } else if label_is(lowered, "d") {
        Some(KeyCode::KeyD)
    } else {
        None
    }
}

/// Maps a browser key label onto a physical key, ignoring case. `None` for a
/// label outside the table.
pub fn key_to_keycode(key: &str) -> (r: Option<KeyCode>)
    ensures
        r == label_code(lower_of(key@)),
{
    let lowered = lowercase(key);
    keycode_for_lowered(&lowered)
}

/// The physical keys currently held down, each at most once.
pub struct PressedKeys {
    keys: Vec<PhysicalKey>,
}

impl View for PressedKeys {
    type V = Set<PhysicalKey>;

    closed spec fn view(&self) -> Set<PhysicalKey> {
        self.keys@.to_set()
    }
}

impl PressedKeys {
    /// No key is stored twice.
    pub closed spec fn wf(&self) -> bool {
        self.keys@.no_duplicates()
    }

    pub fn new() -> (r: PressedKeys)
        ensures
            r.wf(),
            r@ == Set::<PhysicalKey>::empty(),
    {
        let r = PressedKeys { keys: Vec::new() };
        proof {
            assert(r@ =~= Set::<PhysicalKey>::empty());
        }
        r
    }

    fn position(&self, key: &PhysicalKey) -> (r: Option<usize>)
        ensures
            match r {
                Some(i) => i < self.keys@.len() && self.keys@[i as int] == *key,
                None => !self.keys@.contains(*key),
            },
    {
        let mut i: usize = 0;
        while i < self.keys.len()
            invariant
                i <= self.keys@.len(),
                forall|j: int| 0 <= j < i ==> self.keys@[j] != *key,
            decreases self.keys@.len() - i,
        {
            if same_key(&self.keys[i], key) {
                return Some(i);
            }
            i = i + 1;
        }
        None
    }

    pub fn contains(&self, key: &PhysicalKey) -> (r: bool)
        ensures
            r == self@.contains(*key),
    {
        self.position(key).is_some()
    }

    pub fn len(&self) -> (r: usize)
        requires
            self.wf(),
        ensures
            r == self@.len(),
    {
        proof {
            self.keys@.unique_seq_to_set();
        }
        self.keys.len()
    }

    /// Records a key press.
    pub fn insert(&mut self, key: PhysicalKey)
        requires
            old(self).wf(),
        ensures
            final(self).wf(),
            final(self)@ == old(self)@.insert(key),
    {
        if self.position(&key).is_none() {
            self.keys.push(key);
            proof {
                let s = old(self).keys@;
                assert forall|k: PhysicalKey| #[trigger] self@.contains(k) <==> old(self)@.insert(key).contains(k) by {
                    assert(s.push(key).contains(k) <==> (s.contains(k) || k == key)) by {
                        if s.push(key).contains(k) && k != key {
                            let j = choose|j: int| 0 <= j < s.len() + 1 && s.push(key)[j] == k;
                            assert(s[j] == k);
                        }
                        if s.contains(k) {
                            let j = choose|j: int| 0 <= j < s.len() && s[j] == k;
                            assert(s.push(key)[j] == k);
                        }
                        assert(s.push(key)[s.len() as int] == key);
                    }
                }
                assert(self@ =~= old(self)@.insert(key));
            }
        } else {
            proof {
                assert(self@ =~= old(self)@.insert(key));
            }
        }
    }

    /// Records a key release.
    pub fn remove(&mut self, key: &PhysicalKey)
        requires
            old(self).wf(),
        ensures
            final(self).wf(),
            final(self)@ == old(self)@.remove(*key),
    {
        match self.position(key) {
            Some(i) => {
                self.keys.remove(i);
                proof {
                    let s = old(self).keys@;
                    let t = s.remove(i as int);
                    assert(t =~= self.keys@);
                    assert forall|a: int, b: int| 0 <= a < b < t.len() implies t[a] != t[b] by {
                        let sa = if a < i { a } else { a + 1 };
                        let sb = if b < i { b } else { b + 1 };
                        assert(t[a] == s[sa] && t[b] == s[sb]);
                    }
                    assert forall|k: PhysicalKey| #[trigger] self@.contains(k) <==> old(self)@.remove(*key).contains(k) by {
                        if t.contains(k) {
                            let j = choose|j: int| 0 <= j < t.len() && t[j] == k;
                            let sj = if j < i { j } else { j + 1 };
                            assert(s[sj] == k && sj != i);
                        }
                        if s.contains(k) && k != *key {
                            let j = choose|j: int| 0 <= j < s.len() && s[j] == k;
                            assert(j != i);
                            let tj = if j < i { j } else { j - 1 };
                            assert(t[tj] == k);
                        }
                    }
                    assert(self@ =~= old(self)@.remove(*key));
                }
            },
            None => {
                proof {
                    assert(self@ =~= old(self)@.remove(*key));
                }
            },
        }
    }

    /// Forgets every key, as when the input focus is lost.
    pub fn clear(&mut self)
        ensures
            final(self).wf(),
            final(self)@ == Set::<PhysicalKey>::empty(),
    {
        self.keys = Vec::new();
        proof {
            assert(self@ =~= Set::<PhysicalKey>::empty());
        }
    }
}

} // verus!
