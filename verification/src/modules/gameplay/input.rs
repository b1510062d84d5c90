use vstd::prelude::*;

verus! {

/// Recorded state of one key: either released, or pressed with the frame
/// number on which the press transition happened.
#[derive(Clone, Copy, Debug, PartialEq, Eq, Structural)]
pub enum KeyState {
    Released,
    Pressed(u64),
}

/// A key event as the windowing layer reports it.
#[derive(Clone, Copy, Debug, PartialEq, Eq, Structural)]
pub enum KeyAction {
    Press,
    Release,
    Repeat,
}

/// Answer of a scripted key query: `Hit` exactly on the frame of the press
/// transition, `Down` on every later frame while the key stays pressed,
/// `Released` otherwise.
#[derive(Clone, Copy, Debug, PartialEq, Eq, Structural)]
pub enum KeyQuery {
    Released,
    Hit,
    Down,
}

/// The input tracker: key identifiers mapped to their recorded state.
/// Identifiers are small integers the embedding layer assigns to key names.
pub struct InputInner {
    pub input: Vec<(u64, KeyState)>,
}

/// The state recorded for `key`: the first entry carrying `key`, or
/// `Released` when no entry does.
pub open spec fn lookup(entries: Seq<(u64, KeyState)>, key: u64) -> KeyState
    decreases entries.len(),
{
    if entries.len() == 0 {
        KeyState::Released
    } else if entries[0].0 == key {
        entries[0].1
    } else {
        lookup(entries.drop_first(), key)
    }
}

/// What a key query answers for a recorded key state on a given frame.
pub open spec fn spec_key_query(st: KeyState, frame: u64) -> KeyQuery {
    match st {
        KeyState::Released => KeyQuery::Released,
        KeyState::Pressed(f) => if f == frame {
            KeyQuery::Hit
        } else {
            KeyQuery::Down
        },
    }
}

proof fn lemma_lookup_first(entries: Seq<(u64, KeyState)>, key: u64, i: int)
    requires
        0 <= i < entries.len(),
        entries[i].0 == key,
        forall|j: int| 0 <= j < i ==> entries[j].0 != key,
    ensures
        lookup(entries, key) == entries[i].1,
    decreases i,
{
    if i > 0 {
        lemma_lookup_first(entries.drop_first(), key, i - 1);
    }
}

proof fn lemma_lookup_absent(entries: Seq<(u64, KeyState)>, key: u64)
    requires
        forall|j: int| 0 <= j < entries.len() ==> entries[j].0 != key,
    ensures
        lookup(entries, key) == KeyState::Released,
    decreases entries.len(),
{
    if entries.len() > 0 {
        lemma_lookup_absent(entries.drop_first(), key);
    }
}

proof fn lemma_lookup_update(entries: Seq<(u64, KeyState)>, i: int, st: KeyState, key: u64)
    requires
        0 <= i < entries.len(),
        forall|j: int| 0 <= j < i ==> entries[j].0 != entries[i].0,
    ensures
        key == entries[i].0 ==> lookup(entries.update(i, (entries[i].0, st)), key) == st,
        key != entries[i].0 ==> lookup(entries.update(i, (entries[i].0, st)), key) == lookup(
            entries,
            key,
        ),
    decreases i,
{
    let updated = entries.update(i, (entries[i].0, st));
    if i == 0 {
        if key != entries[0].0 {
            assert(updated.drop_first() == entries.drop_first());
        }
    } else {
        assert(updated.drop_first() == entries.drop_first().update(i - 1, (entries[i].0, st)));
        lemma_lookup_update(entries.drop_first(), i - 1, st, key);
    }
}

proof fn lemma_lookup_push(entries: Seq<(u64, KeyState)>, pushed: (u64, KeyState), key: u64)
    requires
        forall|j: int| 0 <= j < entries.len() ==> entries[j].0 != pushed.0,
    ensures
        key == pushed.0 ==> lookup(entries.push(pushed), key) == pushed.1,
        key != pushed.0 ==> lookup(entries.push(pushed), key) == lookup(entries, key),
    decreases entries.len(),
{
    if entries.len() == 0 {
        assert(entries.push(pushed)[0] == pushed);
        if key != pushed.0 {
            assert(lookup(entries.push(pushed), key) == lookup(
                entries.push(pushed).drop_first(),
                key,
            ));
        }
    } else {
        assert(entries.push(pushed).drop_first() == entries.drop_first().push(pushed));
        lemma_lookup_push(entries.drop_first(), pushed, key);
    }
}

impl InputInner {
    /// An input tracker with no key recorded.
    pub fn new() -> (r: InputInner)
        ensures
            r.input@ == Seq::<(u64, KeyState)>::empty(),
    {
        InputInner { input: Vec::new() }
    }

    /// The index of the first entry recording `key`, if any.
    fn find_key(&self, key: u64) -> (r: Option<usize>)
        ensures
            match r {
                Some(i) => i < self.input@.len() && self.input@[i as int].0 == key && forall|j: int|
                    0 <= j < i ==> self.input@[j].0 != key,
                None => forall|j: int| 0 <= j < self.input@.len() ==> self.input@[j].0 != key,
            },
    {
        let n = self.input.len();
        for i in 0..n
            invariant
                n == self.input@.len(),
                forall|j: int| 0 <= j < i ==> self.input@[j].0 != key,
        {
            if self.input[i].0 == key {
                return Some(i);
            }
        }
        None
    }

    /// The recorded state of `key`, `Released` when none was recorded.
    pub fn check_key(&self, key: u64) -> (r: KeyState)
        ensures
            r == lookup(self.input@, key),
    {
        match self.find_key(key) {
            Some(i) => {
                proof {
                    lemma_lookup_first(self.input@, key, i as int);
                }
                self.input[i].1
            }
            None => {
                proof {
                    lemma_lookup_absent(self.input@, key);
                }
                KeyState::Released
            }
        }
    }

    /// Whether `key` is currently pressed, whatever frame the press
    /// happened on.
    pub fn is_key_down(&self, key: u64) -> (r: bool)
        ensures
            r == (lookup(self.input@, key) is Pressed),
    {
        match self.check_key(key) {
            KeyState::Released => false,
            KeyState::Pressed(_) => true,
        }
    }

    /// Whether `key` transitioned to pressed exactly on `current_frame`.
    pub fn is_key_hit(&self, key: u64, current_frame: u64) -> (r: bool)
        ensures
            r == (lookup(self.input@, key) matches KeyState::Pressed(f) && f == current_frame),
    {
        match self.check_key(key) {
            KeyState::Released => false,
            KeyState::Pressed(frame) => frame == current_frame,
        }
    }

    /// The scripted key query: `Hit` only on the exact frame of the press
    /// transition, `Down` on subsequent frames while the key stays pressed,
    /// `Released` otherwise.
    pub fn key_state(&self, key: u64, current_frame: u64) -> (r: KeyQuery)
        ensures
            r == spec_key_query(lookup(self.input@, key), current_frame),
    {
        match self.check_key(key) {
            KeyState::Released => KeyQuery::Released,
            KeyState::Pressed(frame) => if frame == current_frame {
                KeyQuery::Hit
            } else {
                KeyQuery::Down
            },
        }
    }

    /// Record a key event from the windowing layer. A press records the
    /// current frame as the transition frame, a release records `Released`,
    /// and a repeat changes nothing. Every other key keeps its state.
    pub fn handle_key_event(&mut self, key: u64, action: KeyAction, current_frame: u64)
        ensures
            match action {
                KeyAction::Press => lookup(final(self).input@, key) == KeyState::Pressed(
                    current_frame,
                ),
                KeyAction::Release => lookup(final(self).input@, key) == KeyState::Released,
                KeyAction::Repeat => final(self).input@ == old(self).input@,
            },
            forall|k: u64|
                k != key ==> lookup(final(self).input@, k) == lookup(old(self).input@, k),
    {
        let st = match action {
            KeyAction::Press => KeyState::Pressed(current_frame),
            KeyAction::Release => KeyState::Released,
            KeyAction::Repeat => {
                return ;
            }
        };
        match self.find_key(key) {
            Some(i) => {
                proof {
                    assert((key, st) == (self.input@[i as int].0, st));
                    lemma_lookup_update(self.input@, i as int, st, key);
                    assert forall|k: u64| k != key implies lookup(
                        self.input@.update(i as int, (key, st)),
                        k,
                    ) == lookup(self.input@, k) by {
                        lemma_lookup_update(self.input@, i as int, st, k);
                    }
                }
                self.input.set(i, (key, st));
            }
            None => {
                proof {
                    lemma_lookup_push(self.input@, (key, st), key);
                    assert forall|k: u64| k != key implies lookup(
                        self.input@.push((key, st)),
                        k,
                    ) == lookup(self.input@, k) by {
                        lemma_lookup_push(self.input@, (key, st), k);
                    }
                }
                self.input.push((key, st));
            }
        }
    }
}

/// Whether a key name is a bare decimal digit.
pub open spec fn spec_digit(c: char) -> bool {
    '0' <= c && c <= '9'
}

/// A key name as scripted code writes it: a bare digit gains an underscore
/// prefix so it forms a valid identifier; every other name is unchanged.
pub open spec fn normalized_key_name(s: Seq<char>) -> Seq<char> {
    if s.len() == 1 && spec_digit(s[0]) {
        seq!['_'] + s
    } else {
        s
    }
}

/// Turn a lowercased key name from the windowing layer into the name
/// scripted code queries it under.
pub fn normalize_key_name(name: String) -> (r: String)
    ensures
        r@ == normalized_key_name(name@),
{
    let len = name.as_str().unicode_len();
    if len == 1 {
        let c = name.as_str().get_char(0);
        if '0' <= c && c <= '9' {
            let mut prefixed = String::from_str("_");
            prefixed.append(name.as_str());
            proof {
                reveal_strlit("_");
                assert(prefixed@ =~= seq!['_'] + name@);
            }
            return prefixed;
        }
    }
    name
}

/// `key_state` answers `Hit` exactly when the key's recorded press frame is
/// the queried frame, `Down` exactly when the key is pressed with an
/// earlier or later press frame, and `Released` exactly when the key is not
/// pressed.
pub proof fn lemma_key_query_faithful(st: KeyState, frame: u64)
    ensures
        spec_key_query(st, frame) == KeyQuery::Hit <==> st == KeyState::Pressed(frame),
        spec_key_query(st, frame) == KeyQuery::Down <==> (st matches KeyState::Pressed(f) && f
            != frame),
        spec_key_query(st, frame) == KeyQuery::Released <==> st == KeyState::Released,
{
}

} // verus!
