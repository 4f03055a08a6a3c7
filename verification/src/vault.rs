//! The vault's side: the table of passwords, how an inbound message is
//! answered, and how the set-up wizard reads `identifier=password` lines.

use vstd::prelude::*;
use crate::protocol::{
    PasswordRequest, PasswordResponse, ReplyErrorModel, ReplyModel, ResponseModel,
    interpret_reply_spec, list_request_type, list_request_type_spec, pickup_prefix,
    pickup_prefix_spec, request_type, request_type_spec, response_type_spec,
};
use crate::text::{
    all_white_space, edges_not_white_space, has_prefix, is_first_occurrence, is_white_space,
    lemma_first_occurrence_unique, lemma_trim_nonempty, lemma_trim_padded, split_once,
    split_once_spec, starts_with, texts_view, trim, trim_spec,
};

verus! {

/// The passwords the vault serves, by key. No key occurs twice.
pub struct PasswordStore {
    entries: Vec<(String, String)>,
}

impl PasswordStore {
    #[verifier::type_invariant]
    closed spec fn keys_distinct(&self) -> bool {
        forall|i: int, j: int|
            0 <= i < j < self.entries@.len() ==> #[trigger] self.entries@[i].0@
                != #[trigger] self.entries@[j].0@
    }

    /// Position of `k` in the table.
    closed spec fn index_of(&self, k: Seq<char>) -> int {
        choose|i: int| 0 <= i < self.entries@.len() && self.entries@[i].0@ == k
    }

    closed spec fn holds(&self, k: Seq<char>) -> bool {
        exists|i: int| 0 <= i < self.entries@.len() && self.entries@[i].0@ == k
    }
}

impl View for PasswordStore {
    type V = Map<Seq<char>, Seq<char>>;

    closed spec fn view(&self) -> Map<Seq<char>, Seq<char>> {
        Map::new(|k: Seq<char>| self.holds(k), |k: Seq<char>| self.entries@[self.index_of(k)].1@)
    }
}

impl PasswordStore {
    proof fn lemma_index_of(&self, i: int)
        requires
            self.keys_distinct(),
            0 <= i < self.entries@.len(),
        ensures
            self.holds(self.entries@[i].0@),
            self.index_of(self.entries@[i].0@) == i,
            self@.contains_key(self.entries@[i].0@),
            self@[self.entries@[i].0@] == self.entries@[i].1@,
    {
        let k = self.entries@[i].0@;
        assert(self.holds(k));
        let j = self.index_of(k);
        if j != i {
            if j < i {
                assert(self.entries@[j].0@ != self.entries@[i].0@);
            } else {
                assert(self.entries@[i].0@ != self.entries@[j].0@);
            }
        }
    }

    /// An empty table.
    pub fn new() -> (s: Self)
        ensures
            s@ == Map::<Seq<char>, Seq<char>>::empty(),
    {
        let s = PasswordStore { entries: Vec::new() };
        assert(s@ =~= Map::<Seq<char>, Seq<char>>::empty());
        s
    }

    /// Position of `key` in the table, if it is there.
    fn find(&self, key: &String) -> (r: Option<usize>)
        ensures
            r matches Some(i) ==> i < self.entries@.len() && self.entries@[i as int].0@ == key@,
            r is None ==> !self.holds(key@),
    {
        let mut i: usize = 0;
        while i < self.entries.len()
            invariant
                i <= self.entries@.len(),
                forall|j: int| 0 <= j < i ==> self.entries@[j].0@ != key@,
            decreases self.entries@.len() - i,
        {
            if self.entries[i].0 == *key {
                return Some(i);
            }
            i += 1;
        }
        None
    }

    /// The password stored under `key`.
    pub fn get(&self, key: &String) -> (r: Option<String>)
        ensures
            r is Some <==> self@.contains_key(key@),
            r matches Some(p) ==> p@ == self@[key@],
    {
        proof {
            use_type_invariant(self);
        }
        match self.find(key) {
            Some(i) => {
                proof {
                    self.lemma_index_of(i as int);
                }
                Some(self.entries[i].1.clone())
            },
            None => None,
        }
    }

    /// Stores `password` under `key`, replacing what was there.
    pub fn insert(&mut self, key: String, password: String)
        ensures
            final(self)@ == old(self)@.insert(key@, password@),
    {
        proof {
            use_type_invariant(&*self);
        }
        let ghost before = *self;
        match self.find(&key) {
            Some(i) => {
                let mut entries = Vec::new();
                std::mem::swap(&mut entries, &mut self.entries);
                entries.set(i, (key, password));
                proof {
                    let after = PasswordStore { entries };
                    assert forall|a: int, b: int|
                        0 <= a < b < after.entries@.len() implies #[trigger] after.entries@[a].0@
                        != #[trigger] after.entries@[b].0@ by {
                        assert(before.entries@[a].0@ != before.entries@[b].0@);
                    }
                    assert forall|k: Seq<char>| after.holds(k) <==> before.holds(k) by {
                        if after.holds(k) {
                            let j = choose|j: int|
                                0 <= j < after.entries@.len() && after.entries@[j].0@ == k;
                            assert(before.entries@[j].0@ == k);
                        }
                        if before.holds(k) {
                            let j = choose|j: int|
                                0 <= j < before.entries@.len() && before.entries@[j].0@ == k;
                            assert(after.entries@[j].0@ == k);
                        }
                    }
                    assert forall|k: Seq<char>| #[trigger] after.holds(k) implies after@[k] == (
                    if k == key@ {
                        password@
                    } else {
                        before@[k]
                    }) by {
                        let j = choose|j: int|
                            0 <= j < after.entries@.len() && after.entries@[j].0@ == k;
                        after.lemma_index_of(j);
                        before.lemma_index_of(j);
                    }
                    assert(after@ =~= before@.insert(key@, password@));
                }
                self.entries = entries;
            },
            None => {
                let ghost k = key@;
                let ghost p = password@;
                let mut entries = Vec::new();
                std::mem::swap(&mut entries, &mut self.entries);
                entries.push((key, password));
                proof {
                    let after = PasswordStore { entries };
                    let n = before.entries@.len();
                    assert forall|a: int, b: int|
                        0 <= a < b < after.entries@.len() implies #[trigger] after.entries@[a].0@
                        != #[trigger] after.entries@[b].0@ by {
                        if b < n {
                            assert(before.entries@[a].0@ != before.entries@[b].0@);
                        } else {
                            assert(after.entries@[a] == before.entries@[a]);
                        }
                    }
                    assert forall|kk: Seq<char>| after.holds(kk) <==> (before.holds(kk) || kk == k) by {
                        if after.holds(kk) {
                            let j = choose|j: int|
                                0 <= j < after.entries@.len() && after.entries@[j].0@ == kk;
                            if j < n {
                                assert(before.entries@[j].0@ == kk);
                            }
                        }
                        if before.holds(kk) {
                            let j = choose|j: int|
                                0 <= j < before.entries@.len() && before.entries@[j].0@ == kk;
                            assert(after.entries@[j].0@ == kk);
                        }
                        if kk == k {
                            assert(after.entries@[n as int].0@ == kk);
                        }
                    }
                    assert forall|kk: Seq<char>| #[trigger] after.holds(kk) implies after@[kk] == (
                    if kk == k {
                        p
                    } else {
                        before@[kk]
                    }) by {
                        let j = choose|j: int|
                            0 <= j < after.entries@.len() && after.entries@[j].0@ == kk;
                        after.lemma_index_of(j);
                        if j < n {
                            before.lemma_index_of(j);
                        }
                    }
                    assert(after@ =~= before@.insert(k, p));
                }
                self.entries = entries;
            },
        }
    }

    /// The keys in the table, each once.
    pub fn keys(&self) -> (ks: Vec<String>)
        ensures
            forall|k: Seq<char>| self@.contains_key(k) <==> exists|i: int| 0 <= i < ks@.len() && #[trigger] ks@[i]@ == k,
            forall|i: int, j: int| 0 <= i < j < ks@.len() ==> #[trigger] ks@[i]@ != #[trigger] ks@[j]@,
            names_exactly(texts_view(ks@), self@),
    {
        proof {
            use_type_invariant(self);
        }
        let mut ks: Vec<String> = Vec::new();
        let mut i: usize = 0;
        while i < self.entries.len()
            invariant
                i <= self.entries@.len(),
                ks@.len() == i,
                self.keys_distinct(),
                forall|j: int| 0 <= j < i ==> #[trigger] ks@[j]@ == self.entries@[j].0@,
            decreases self.entries@.len() - i,
        {
            ks.push(self.entries[i].0.clone());
            i += 1;
        }
        proof {
            assert forall|k: Seq<char>| self@.contains_key(k) implies exists|i: int| 0 <= i < ks@.len() && #[trigger] ks@[i]@ == k by {
                let j = choose|j: int| 0 <= j < self.entries@.len() && self.entries@[j].0@ == k;
                assert(ks@[j]@ == k);
            }
            assert forall|k: Seq<char>| (exists|i: int| 0 <= i < ks@.len() && #[trigger] ks@[i]@ == k) implies self@.contains_key(k) by {
                let j = choose|j: int| 0 <= j < ks@.len() && #[trigger] ks@[j]@ == k;
                assert(self.entries@[j].0@ == k);
            }
            assert forall|a: int, b: int| 0 <= a < b < ks@.len() implies #[trigger] ks@[a]@ != #[trigger] ks@[b]@ by {
                assert(self.entries@[a].0@ != self.entries@[b].0@);
            }
            lemma_names_exactly(ks@, self@);
        }
        ks
    }
}

/// `keys` lists the keys of `store`, each once and nothing else.
pub open spec fn names_exactly(keys: Seq<Seq<char>>, store: Map<Seq<char>, Seq<char>>) -> bool {
    &&& forall|k: Seq<char>| store.contains_key(k) <==> keys.contains(k)
    &&& forall|i: int, j: int| 0 <= i < j < keys.len() ==> #[trigger] keys[i] != #[trigger] keys[j]
}

proof fn lemma_names_exactly(ks: Seq<String>, store: Map<Seq<char>, Seq<char>>)
    requires
        forall|k: Seq<char>| store.contains_key(k) <==> exists|i: int| 0 <= i < ks.len() && #[trigger] ks[i]@ == k,
        forall|i: int, j: int| 0 <= i < j < ks.len() ==> #[trigger] ks[i]@ != #[trigger] ks[j]@,
    ensures
        names_exactly(texts_view(ks), store),
{
    let v = texts_view(ks);
    assert forall|k: Seq<char>| store.contains_key(k) <==> v.contains(k) by {
        if store.contains_key(k) {
            let i = choose|i: int| 0 <= i < ks.len() && #[trigger] ks[i]@ == k;
            assert(v[i] == k);
        }
        if v.contains(k) {
            let i = choose|i: int| 0 <= i < v.len() && v[i] == k;
            assert(ks[i]@ == k);
        }
    }
    assert forall|i: int, j: int| 0 <= i < j < v.len() implies #[trigger] v[i] != #[trigger] v[j] by {
        assert(ks[i]@ != ks[j]@);
    }
}

/// The table that `pairs` give when they are stored one after the other: a
/// later pair under the same key replaces an earlier one.
pub open spec fn map_of_pairs(pairs: Seq<(Seq<char>, Seq<char>)>) -> Map<Seq<char>, Seq<char>>
    decreases pairs.len(),
{
    if pairs.len() == 0 {
        Map::empty()
    } else {
        map_of_pairs(pairs.drop_last()).insert(pairs.last().0, pairs.last().1)
    }
}

/// The contents of a list of (key, password) pairs.
pub open spec fn pairs_view(pairs: Seq<(String, String)>) -> Seq<(Seq<char>, Seq<char>)> {
    pairs.map_values(|e: (String, String)| (e.0@, e.1@))
}

impl PasswordStore {
    /// A table holding `pairs`, stored in order.
    pub fn from_pairs(pairs: Vec<(String, String)>) -> (s: Self)
        ensures
            s@ == map_of_pairs(pairs_view(pairs@)),
    {
        let mut s = PasswordStore::new();
        let n = pairs.len();
        let mut i: usize = 0;
        while i < n
            invariant
                i <= n,
                n == pairs@.len(),
                s@ == map_of_pairs(pairs_view(pairs@).take(i as int)),
            decreases n - i,
        {
            let k = pairs[i].0.clone();
            let v = pairs[i].1.clone();
            proof {
                assert(pairs_view(pairs@).take(i + 1).drop_last() =~= pairs_view(pairs@).take(
                    i as int,
                ));
            }
            s.insert(k, v);
            i += 1;
        }
        proof {
            assert(pairs_view(pairs@).take(n as int) =~= pairs_view(pairs@));
        }
        s
    }
}

/// How the vault treats an inbound message.
#[derive(Debug, Clone, Copy, PartialEq, Eq, Structural)]
pub enum MessageKind {
    /// The mediator's own message-pickup traffic, ignored quietly.
    Pickup,
    /// A password request whose body could be read.
    PasswordRequest,
    /// A request for the keys the vault holds.
    ListKeysRequest,
    /// Anything else, ignored with a warning.
    Invalid,
}

/// How a message of type `type_` is treated, where `body_is_request` says
/// whether its body reads as a `PasswordRequest`.
pub open spec fn classify_spec(type_: Seq<char>, body_is_request: bool) -> MessageKind {
    if has_prefix(type_, pickup_prefix_spec()) {
        MessageKind::Pickup
    } else if has_prefix(type_, request_type_spec()) && body_is_request {
        MessageKind::PasswordRequest
    } else if has_prefix(type_, list_request_type_spec()) {
        MessageKind::ListKeysRequest
    } else {
        MessageKind::Invalid
    }
}

/// How a message of type `type_` is treated.
pub fn classify_message(type_: &str, body_is_request: bool) -> (k: MessageKind)
    ensures
        k == classify_spec(type_@, body_is_request),
{
    if starts_with(type_, pickup_prefix()) {
        MessageKind::Pickup
    } else if starts_with(type_, request_type()) && body_is_request {
        MessageKind::PasswordRequest
    } else if starts_with(type_, list_request_type()) {
        MessageKind::ListKeysRequest
    } else {
        MessageKind::Invalid
    }
}

/// The vault's answer to a request for `key`.
pub open spec fn answer_spec(store: Map<Seq<char>, Seq<char>>, key: Seq<char>) -> ResponseModel {
    if store.contains_key(key) {
        ResponseModel::Found { key, password: store[key] }
    } else {
        ResponseModel::NotFound
    }
}

/// The vault's answer to a message of type `type_` whose body read as the
/// request `request` (or did not read as a request): `None` when no answer
/// is sent.
pub open spec fn process_spec(
    store: Map<Seq<char>, Seq<char>>,
    type_: Seq<char>,
    request: Option<Seq<char>>,
) -> Option<ResponseModel> {
    match classify_spec(type_, request is Some) {
        MessageKind::PasswordRequest => Some(answer_spec(store, request->0)),
        _ => None,
    }
}

/// The contents of an optional request.
pub open spec fn request_view(r: Option<PasswordRequest>) -> Option<Seq<char>> {
    match r {
        Some(q) => Some(q@),
        None => None,
    }
}

/// The contents of an optional response.
pub open spec fn response_view(r: Option<PasswordResponse>) -> Option<ResponseModel> {
    match r {
        Some(a) => Some(a@),
        None => None,
    }
}

/// The answer to an inbound message of type `type_` whose body read as
/// `request`, looked up in `passwords`; `None` when the message is not a
/// password request.
pub fn process_message(passwords: &PasswordStore, type_: &str, request: Option<PasswordRequest>) -> (r:
    Option<PasswordResponse>)
    ensures
        response_view(r) == process_spec(passwords@, type_@, request_view(request)),
{
    match classify_message(type_, request.is_some()) {
        MessageKind::PasswordRequest => {
            let request = request.unwrap();
            match passwords.get(&request.key) {
                Some(password) => Some(PasswordResponse::Found { key: request.key, password }),
                None => Some(PasswordResponse::NotFound),
            }
        },
        _ => None,
    }
}

/// What the vault sends back: a password answer or the list of its keys.
#[derive(Debug, Clone)]
pub enum VaultAnswer {
    Password(PasswordResponse),
    KeyList(Vec<String>),
}

/// The vault's answer to an inbound message of type `type_` whose body read
/// as `request` (or did not read as a password request): a password request
/// is answered as by `process_message`, a request for keys with every key
/// the vault holds, and anything else not at all.
pub fn answer_message(passwords: &PasswordStore, type_: &str, request: Option<PasswordRequest>) -> (a:
    Option<VaultAnswer>)
    ensures
        match classify_spec(type_@, request is Some) {
            MessageKind::PasswordRequest => a matches Some(VaultAnswer::Password(r)) && Some(r@)
                == process_spec(passwords@, type_@, request_view(request)),
            MessageKind::ListKeysRequest => a matches Some(VaultAnswer::KeyList(ks))
                && names_exactly(texts_view(ks@), passwords@),
            _ => a is None,
        },
{
    match classify_message(type_, request.is_some()) {
        MessageKind::PasswordRequest => match process_message(passwords, type_, request) {
            Some(r) => Some(VaultAnswer::Password(r)),
            None => None,
        },
        MessageKind::ListKeysRequest => Some(VaultAnswer::KeyList(passwords.keys())),
        _ => None,
    }
}

/// One line typed into the set-up wizard, read.
#[derive(Debug, Clone)]
pub enum EntryLine {
    /// A blank line: the list is complete.
    Finished,
    /// `identifier=password`, both sides trimmed.
    Entry { key: String, password: String },
    /// A line that is neither blank nor holds `=`.
    Invalid,
}

/// The contents of an `EntryLine`.
pub enum EntryLineModel {
    Finished,
    Entry { key: Seq<char>, password: Seq<char> },
    Invalid,
}

impl View for EntryLine {
    type V = EntryLineModel;

    open spec fn view(&self) -> EntryLineModel {
        match self {
            EntryLine::Finished => EntryLineModel::Finished,
            EntryLine::Entry { key, password } => EntryLineModel::Entry {
                key: key@,
                password: password@,
            },
            EntryLine::Invalid => EntryLineModel::Invalid,
        }
    }
}

/// How a wizard line is read: blank after trimming ends the list; otherwise
/// it is split at its first `=` and both sides are trimmed.
pub open spec fn parse_entry_spec(line: Seq<char>) -> EntryLineModel {
    if trim_spec(line).len() == 0 {
        EntryLineModel::Finished
    } else {
        match split_once_spec(line, '=') {
            Some((k, v)) => EntryLineModel::Entry { key: trim_spec(k), password: trim_spec(v) },
            None => EntryLineModel::Invalid,
        }
    }
}

/// A line `key=password`, with any white space around the key and around
/// the password, reads as that key and that whole password: the password is
/// everything after the first `=`, inner spaces and later `=` signs
/// included, with only the white space at its ends removed.
pub proof fn law_wizard_line_round_trip(
    key: Seq<char>,
    password: Seq<char>,
    w1: Seq<char>,
    w2: Seq<char>,
    w3: Seq<char>,
    w4: Seq<char>,
)
    requires
        !key.contains('='),
        edges_not_white_space(key),
        edges_not_white_space(password),
        all_white_space(w1),
        all_white_space(w2),
        all_white_space(w3),
        all_white_space(w4),
    ensures
        parse_entry_spec(w1 + key + w2 + seq!['='] + w3 + password + w4) == (EntryLineModel::Entry {
            key,
            password,
        }),
{
    let left = w1 + key + w2;
    let right = w3 + password + w4;
    let line = w1 + key + w2 + seq!['='] + w3 + password + w4;
    assert(line =~= left + seq!['='] + right);
    let i = left.len() as int;
    assert(!is_white_space('='));
    assert(line[i] == '=');
    assert forall|j: int| 0 <= j < i implies line[j] != '=' by {
        assert(line[j] == left[j]);
        if j < w1.len() {
            assert(is_white_space(w1[j]));
        } else if j < w1.len() + key.len() {
            assert(left[j] == key[j - w1.len()]);
            if key[j - w1.len()] == '=' {
                assert(key.contains('='));
            }
        } else {
            assert(is_white_space(w2[j - w1.len() - key.len()]));
        }
    }
    assert(is_first_occurrence(line, '=', i));
    let c = choose|c: int| is_first_occurrence(line, '=', c);
    lemma_first_occurrence_unique(line, '=', i, c);
    assert(line.take(i) =~= left);
    assert(line.skip(i + 1) =~= right);
    lemma_trim_padded(w1, key, w2);
    lemma_trim_padded(w3, password, w4);
    lemma_trim_nonempty(line, i);
}

/// Reads one line typed into the set-up wizard.
pub fn parse_password_entry(line: &str) -> (e: EntryLine)
    ensures
        e@ == parse_entry_spec(line@),
{
    let trimmed = trim(line);
    if trimmed.as_str().is_empty() {
        return EntryLine::Finished;
    }
    match split_once(line, '=') {
        Some((k, v)) => EntryLine::Entry { key: trim(k.as_str()), password: trim(v.as_str()) },
        None => EntryLine::Invalid,
    }
}

/// What the wizard does after a line.
#[derive(Debug, Clone, Copy, PartialEq, Eq, Structural)]
pub enum WizardStep {
    /// The list is complete.
    Done,
    /// A password was stored; ask for the next line.
    Stored,
    /// The line was not `identifier=password`; say so and ask again.
    Rejected,
}

/// Applies one wizard line to the passwords gathered so far.
pub fn apply_entry_line(passwords: &mut PasswordStore, line: &str) -> (step: WizardStep)
    ensures
        match parse_entry_spec(line@) {
            EntryLineModel::Finished => step == WizardStep::Done && final(passwords)@ == old(passwords)@,
            EntryLineModel::Entry { key, password } => step == WizardStep::Stored
                && final(passwords)@ == old(passwords)@.insert(key, password),
            EntryLineModel::Invalid => step == WizardStep::Rejected && final(passwords)@ == old(passwords)@,
        },
{
    match parse_password_entry(line) {
        EntryLine::Finished => WizardStep::Done,
        EntryLine::Entry { key, password } => {
            passwords.insert(key, password);
            WizardStep::Stored
        },
        EntryLine::Invalid => WizardStep::Rejected,
    }
}

/// The message types that this system exchanges are told apart by their
/// prefixes: a request is not pickup traffic, and each type starts with
/// itself.
pub proof fn lemma_message_types_distinct()
    ensures
        has_prefix(request_type_spec(), request_type_spec()),
        !has_prefix(request_type_spec(), pickup_prefix_spec()),
        has_prefix(response_type_spec(), response_type_spec()),
        !has_prefix(list_request_type_spec(), pickup_prefix_spec()),
        !has_prefix(list_request_type_spec(), request_type_spec()),
        has_prefix(list_request_type_spec(), list_request_type_spec()),
{
    reveal_strlit("https://demo.example/password/request");
    reveal_strlit("https://demo.example/password/response");
    reveal_strlit("https://didcomm.org/messagepickup");
    reveal_strlit("https://demo.example/password/list-keys-request");
    assert(list_request_type_spec().subrange(0, list_request_type_spec().len() as int)
        =~= list_request_type_spec());
    assert(list_request_type_spec().subrange(0, pickup_prefix_spec().len() as int)[9]
        != pickup_prefix_spec()[9]);
    assert(list_request_type_spec().subrange(0, request_type_spec().len() as int)[30]
        != request_type_spec()[30]);
    assert(request_type_spec().subrange(0, request_type_spec().len() as int)
        =~= request_type_spec());
    assert(response_type_spec().subrange(0, response_type_spec().len() as int)
        =~= response_type_spec());
    let p = pickup_prefix_spec();
    assert(request_type_spec().subrange(0, p.len() as int)[9] != p[9]);
}

/// A request for `key` that reaches the vault is always answered, and the
/// client that reads the answer learns exactly the password stored under
/// `key`, or that none is stored.
pub proof fn law_request_answer_round_trip(store: Map<Seq<char>, Seq<char>>, key: Seq<char>)
    ensures
        process_spec(store, request_type_spec(), Some(key)) is Some,
        interpret_reply_spec(
            ReplyModel::Message {
                type_: response_type_spec(),
                body: Ok(process_spec(store, request_type_spec(), Some(key))->0),
            },
        ) == Ok::<Option<Seq<char>>, ReplyErrorModel>(
            if store.contains_key(key) {
                Some(store[key])
            } else {
                None
            },
        ),
{
    lemma_message_types_distinct();
}

/// A message that is neither a password request nor readable as one gets no
/// answer, and the mediator's pickup traffic gets none whatever it holds.
pub proof fn law_only_requests_are_answered(
    store: Map<Seq<char>, Seq<char>>,
    type_: Seq<char>,
    request: Option<Seq<char>>,
)
    ensures
        process_spec(store, type_, request) is Some <==> (!has_prefix(type_, pickup_prefix_spec())
            && has_prefix(type_, request_type_spec()) && request is Some),
{
}

/// A password typed into the wizard as `identifier=password` is what a later
/// request for that identifier is answered with.
pub proof fn law_wizard_entry_is_served(store: Map<Seq<char>, Seq<char>>, line: Seq<char>)
    requires
        parse_entry_spec(line) is Entry,
    ensures
        ({
            let key = parse_entry_spec(line)->key;
            let password = parse_entry_spec(line)->password;
            process_spec(store.insert(key, password), request_type_spec(), Some(key)) == Some(
                ResponseModel::Found { key, password },
            )
        }),
{
    lemma_message_types_distinct();
}

} // verus!
