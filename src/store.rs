//! A model of the subscriber store, held in memory: subscribers with their
//! status, and the confirmation tokens that point at them. Writes are
//! staged in a `Transaction` and become visible only when it is committed.
//! The rules (unique ids, emails and tokens; all-or-nothing commits) are
//! those of the database tables; the laws of the store are stated over
//! this model and the tests run the request flows against it. The running
//! service keeps the same data in PostgreSQL.
use crate::domain::NewSubscriber;
use vstd::prelude::*;

verus! {

/// The identity of a subscriber: the 128 bits of a random (version 4) UUID.
#[derive(Clone, Copy, Debug, PartialEq, Eq, Structural)]
pub struct SubscriberId {
    pub value: u128,
}

/// The two lifecycle states of a subscriber.
#[derive(Clone, Copy, Debug, PartialEq, Eq, Structural)]
pub enum SubscriptionStatus {
    PendingConfirmation,
    Confirmed,
}

impl SubscriptionStatus {
    /// The name under which the status is stored.
    pub fn as_str(&self) -> (r: &'static str)
        ensures
            *self is PendingConfirmation ==> r@ == "pending_confirmation"@,
            *self is Confirmed ==> r@ == "confirmed"@,
    {
        match self {
            SubscriptionStatus::PendingConfirmation => "pending_confirmation",
            SubscriptionStatus::Confirmed => "confirmed",
        }
    }
}

/// A stored subscriber.
pub struct Subscriber {
    pub id: SubscriberId,
    pub email: String,
    pub name: String,
    /// Microseconds since the Unix epoch, UTC.
    pub subscribed_at: i64,
    pub status: SubscriptionStatus,
}

/// What a stored subscriber holds, as mathematical values.
pub struct SubscriberRecord {
    pub id: SubscriberId,
    pub email: Seq<char>,
    pub name: Seq<char>,
    pub subscribed_at: i64,
    pub status: SubscriptionStatus,
}

impl View for Subscriber {
    type V = SubscriberRecord;

    open spec fn view(&self) -> SubscriberRecord {
        SubscriberRecord {
            id: self.id,
            email: self.email@,
            name: self.name@,
            subscribed_at: self.subscribed_at,
            status: self.status,
        }
    }
}

/// A stored confirmation token and the subscriber it belongs to.
pub struct TokenRecord {
    pub token: String,
    pub subscriber_id: SubscriberId,
}

pub struct TokenEntry {
    pub token: Seq<char>,
    pub subscriber_id: SubscriberId,
}

impl View for TokenRecord {
    type V = TokenEntry;

    open spec fn view(&self) -> TokenEntry {
        TokenEntry { token: self.token@, subscriber_id: self.subscriber_id }
    }
}

/// Why the store refused a write.
#[derive(Clone, Copy, Debug, PartialEq, Eq, Structural)]
pub enum StorageError {
    /// Another subscriber already has this email address.
    DuplicateEmail,
    /// Another subscriber already has this id.
    DuplicateId,
    /// This token is already stored.
    DuplicateToken,
    /// The database could not carry out the request.
    Backend,
}

pub open spec fn records(v: Seq<Subscriber>) -> Seq<SubscriberRecord> {
    v.map_values(|s: Subscriber| s@)
}

pub open spec fn entries(v: Seq<TokenRecord>) -> Seq<TokenEntry> {
    v.map_values(|t: TokenRecord| t@)
}

pub open spec fn email_taken(rows: Seq<SubscriberRecord>, email: Seq<char>) -> bool {
    exists|i: int| 0 <= i < rows.len() && (#[trigger] rows[i]).email == email
}

pub open spec fn id_taken(rows: Seq<SubscriberRecord>, id: SubscriberId) -> bool {
    exists|i: int| 0 <= i < rows.len() && (#[trigger] rows[i]).id == id
}

pub open spec fn token_taken(tokens: Seq<TokenEntry>, token: Seq<char>) -> bool {
    exists|i: int| 0 <= i < tokens.len() && (#[trigger] tokens[i]).token == token
}

/// No two subscribers share an id or an email address.
pub open spec fn rows_unique(rows: Seq<SubscriberRecord>) -> bool {
    forall|i: int, j: int|
        0 <= i < rows.len() && 0 <= j < rows.len() && i != j ==> #[trigger] rows[i].id
            != #[trigger] rows[j].id && rows[i].email != rows[j].email
}

/// No token is stored twice.
pub open spec fn tokens_unique(tokens: Seq<TokenEntry>) -> bool {
    forall|i: int, j: int|
        0 <= i < tokens.len() && 0 <= j < tokens.len() && i != j ==> #[trigger] tokens[i].token
            != #[trigger] tokens[j].token
}

/// The subscriber that a token was stored for, if it was stored.
pub open spec fn lookup_token(tokens: Seq<TokenEntry>, token: Seq<char>) -> Option<SubscriberId> {
    if token_taken(tokens, token) {
        Some(tokens[choose|i: int| 0 <= i < tokens.len() && (#[trigger] tokens[i]).token == token].subscriber_id)
    } else {
        None
    }
}

/// The status of the subscriber with this id, if there is one.
pub open spec fn status_of(rows: Seq<SubscriberRecord>, id: SubscriberId) -> Option<
    SubscriptionStatus,
> {
    if id_taken(rows, id) {
        Some(rows[choose|i: int| 0 <= i < rows.len() && (#[trigger] rows[i]).id == id].status)
    } else {
        None
    }
}

pub open spec fn confirmed(r: SubscriberRecord) -> SubscriberRecord {
    SubscriberRecord { status: SubscriptionStatus::Confirmed, ..r }
}

/// The subscribers after the one with this id, if any, is marked confirmed.
pub open spec fn confirm_rows(rows: Seq<SubscriberRecord>, id: SubscriberId) -> Seq<
    SubscriberRecord,
> {
    rows.map_values(|r: SubscriberRecord| if r.id == id { confirmed(r) } else { r })
}

/// Some staged subscriber has an email address that is already committed.
pub open spec fn email_conflict(rows: Seq<SubscriberRecord>, staged: Seq<SubscriberRecord>) -> bool {
    exists|j: int| 0 <= j < staged.len() && email_taken(rows, #[trigger] staged[j].email)
}

/// Some staged subscriber has an id that is already committed.
pub open spec fn id_conflict(rows: Seq<SubscriberRecord>, staged: Seq<SubscriberRecord>) -> bool {
    exists|j: int| 0 <= j < staged.len() && id_taken(rows, #[trigger] staged[j].id)
}

/// Some staged token is already committed.
pub open spec fn token_conflict(tokens: Seq<TokenEntry>, staged: Seq<TokenEntry>) -> bool {
    exists|j: int| 0 <= j < staged.len() && token_taken(tokens, #[trigger] staged[j].token)
}

proof fn lemma_rows_concat(a: Seq<SubscriberRecord>, b: Seq<SubscriberRecord>)
    requires
        rows_unique(a),
        rows_unique(b),
        !email_conflict(a, b),
        !id_conflict(a, b),
    ensures
        rows_unique(a + b),
{
    let c = a + b;
    assert forall|i: int, j: int|
        0 <= i < c.len() && 0 <= j < c.len() && i != j implies #[trigger] c[i].id
        != #[trigger] c[j].id && c[i].email != c[j].email by {
        if i < a.len() && j >= a.len() {
            assert(c[j] == b[j - a.len()]);
            if c[i].id == c[j].id {
                assert(id_taken(a, b[j - a.len()].id));
            }
            if c[i].email == c[j].email {
                assert(email_taken(a, b[j - a.len()].email));
            }
        } else if j < a.len() && i >= a.len() {
            assert(c[i] == b[i - a.len()]);
            if c[i].id == c[j].id {
                assert(id_taken(a, b[i - a.len()].id));
            }
            if c[i].email == c[j].email {
                assert(email_taken(a, b[i - a.len()].email));
            }
        } else if i >= a.len() {
            assert(c[i] == b[i - a.len()] && c[j] == b[j - a.len()]);
        }
    }
}

proof fn lemma_tokens_concat(a: Seq<TokenEntry>, b: Seq<TokenEntry>)
    requires
        tokens_unique(a),
        tokens_unique(b),
        !token_conflict(a, b),
    ensures
        tokens_unique(a + b),
{
    let c = a + b;
    assert forall|i: int, j: int|
        0 <= i < c.len() && 0 <= j < c.len() && i != j implies #[trigger] c[i].token
        != #[trigger] c[j].token by {
        if i < a.len() && j >= a.len() {
            assert(c[j] == b[j - a.len()]);
            if c[i].token == c[j].token {
                assert(token_taken(a, b[j - a.len()].token));
            }
        } else if j < a.len() && i >= a.len() {
            assert(c[i] == b[i - a.len()]);
            if c[i].token == c[j].token {
                assert(token_taken(a, b[i - a.len()].token));
            }
        } else if i >= a.len() {
            assert(c[i] == b[i - a.len()] && c[j] == b[j - a.len()]);
        }
    }
}

/// Relies on `uuid::Uuid::new_v4`: a random identifier, read as its 128 bits.
#[verifier::external_body]
fn random_subscriber_id() -> (r: SubscriberId) {
    SubscriberId { value: uuid::Uuid::new_v4().as_u128() }
}

/// Relies on `chrono::Utc::now`: the current time, in microseconds since the epoch.
#[verifier::external_body]
fn now_micros() -> (r: i64) {
    chrono::Utc::now().timestamp_micros()
}

fn find_email(rows: &Vec<Subscriber>, email: &String) -> (r: bool)
    ensures
        r == email_taken(records(rows@), email@),
{
    let mut i: usize = 0;
    while i < rows.len()
        invariant
            i <= rows@.len(),
            forall|j: int| 0 <= j < i ==> (#[trigger] rows@[j]).email@ != email@,
        decreases rows.len() - i,
    {
        if rows[i].email == *email {
            assert(records(rows@)[i as int].email == email@);
            return true;
        }
        i = i + 1;
    }
    assert forall|j: int| 0 <= j < records(rows@).len() implies (#[trigger] records(
        rows@,
    )[j]).email != email@ by {
        assert(rows@[j].email@ != email@);
    }
    false
}

fn find_id(rows: &Vec<Subscriber>, id: SubscriberId) -> (r: Option<usize>)
    ensures
        r is None <==> !id_taken(records(rows@), id),
        r matches Some(i) ==> i < rows@.len() && rows@[i as int].id == id,
{
    let mut i: usize = 0;
    while i < rows.len()
        invariant
            i <= rows@.len(),
            forall|j: int| 0 <= j < i ==> (#[trigger] rows@[j]).id != id,
        decreases rows.len() - i,
    {
        if rows[i].id == id {
            assert(records(rows@)[i as int].id == id);
            return Some(i);
        }
        i = i + 1;
    }
    assert forall|j: int| 0 <= j < records(rows@).len() implies (#[trigger] records(
        rows@,
    )[j]).id != id by {
        assert(rows@[j].id != id);
    }
    None
}

fn find_token(tokens: &Vec<TokenRecord>, token: &String) -> (r: Option<usize>)
    ensures
        r is None <==> !token_taken(entries(tokens@), token@),
        r matches Some(i) ==> i < tokens@.len() && tokens@[i as int].token@ == token@,
{
    let mut i: usize = 0;
    while i < tokens.len()
        invariant
            i <= tokens@.len(),
            forall|j: int| 0 <= j < i ==> (#[trigger] tokens@[j]).token@ != token@,
        decreases tokens.len() - i,
    {
        if tokens[i].token == *token {
            assert(entries(tokens@)[i as int].token == token@);
            return Some(i);
        }
        i = i + 1;
    }
    assert forall|j: int| 0 <= j < entries(tokens@).len() implies (#[trigger] entries(
        tokens@,
    )[j]).token != token@ by {
        assert(tokens@[j].token@ != token@);
    }
    None
}

/// Writes staged against a store and not yet committed.
pub struct Transaction {
    subscribers: Vec<Subscriber>,
    tokens: Vec<TokenRecord>,
}

impl Transaction {
    pub closed spec fn staged_rows(&self) -> Seq<SubscriberRecord> {
        records(self.subscribers@)
    }

    pub closed spec fn staged_tokens(&self) -> Seq<TokenEntry> {
        entries(self.tokens@)
    }

    /// The staged writes do not collide with one another.
    pub open spec fn wf(&self) -> bool {
        rows_unique(self.staged_rows()) && tokens_unique(self.staged_tokens())
    }
}

/// Subscribers and confirmation tokens as committed.
pub struct SubscriberStore {
    subscribers: Vec<Subscriber>,
    tokens: Vec<TokenRecord>,
}

impl SubscriberStore {
    pub closed spec fn rows(&self) -> Seq<SubscriberRecord> {
        records(self.subscribers@)
    }

    pub closed spec fn token_entries(&self) -> Seq<TokenEntry> {
        entries(self.tokens@)
    }

    /// Ids, emails and tokens are each unique.
    pub open spec fn wf(&self) -> bool {
        rows_unique(self.rows()) && tokens_unique(self.token_entries())
    }

    pub fn new() -> (r: SubscriberStore)
        ensures
            r.wf(),
            r.rows() == Seq::<SubscriberRecord>::empty(),
            r.token_entries() == Seq::<TokenEntry>::empty(),
    {
        let r = SubscriberStore { subscribers: Vec::new(), tokens: Vec::new() };
        assert(r.rows() =~= Seq::<SubscriberRecord>::empty());
        assert(r.token_entries() =~= Seq::<TokenEntry>::empty());
        r
    }

    /// The committed subscribers.
    pub fn subscribers(&self) -> (r: &Vec<Subscriber>)
        ensures
            records(r@) == self.rows(),
    {
        &self.subscribers
    }

    /// Opens a transaction with nothing staged.
    pub fn begin(&self) -> (tx: Transaction)
        ensures
            tx.wf(),
            tx.staged_rows() == Seq::<SubscriberRecord>::empty(),
            tx.staged_tokens() == Seq::<TokenEntry>::empty(),
    {
        let tx = Transaction { subscribers: Vec::new(), tokens: Vec::new() };
        assert(tx.staged_rows() =~= Seq::<SubscriberRecord>::empty());
        assert(tx.staged_tokens() =~= Seq::<TokenEntry>::empty());
        tx
    }
    /// Stages a new subscriber, pending confirmation, under `id` and the
    /// time `subscribed_at`. Refused when the email address is taken,
    /// committed or staged, and otherwise when the id is.
    pub fn insert_subscriber_with(
        &self,
        tx: &mut Transaction,
        subscriber: &NewSubscriber,
        id: SubscriberId,
        subscribed_at: i64,
    ) -> (r: Result<SubscriberId, StorageError>)
        requires
            old(tx).wf(),
        ensures
            final(tx).wf(),
            r == Err::<SubscriberId, StorageError>(StorageError::DuplicateEmail) <==> email_taken(
                self.rows(),
                subscriber.email@,
            ) || email_taken(old(tx).staged_rows(), subscriber.email@),
            r == Err::<SubscriberId, StorageError>(StorageError::DuplicateId) <==> !(email_taken(
                self.rows(),
                subscriber.email@,
            ) || email_taken(old(tx).staged_rows(), subscriber.email@)) && (id_taken(
                self.rows(),
                id,
            ) || id_taken(old(tx).staged_rows(), id)),
            r is Ok <==> !(email_taken(self.rows(), subscriber.email@) || email_taken(
                old(tx).staged_rows(),
                subscriber.email@,
            )) && !(id_taken(self.rows(), id) || id_taken(old(tx).staged_rows(), id)),
            r is Ok ==> r == Ok::<SubscriberId, StorageError>(id) && final(tx).staged_rows()
                == old(tx).staged_rows().push(
                SubscriberRecord {
                    id,
                    email: subscriber.email@,
                    name: subscriber.name@,
                    subscribed_at,
                    status: SubscriptionStatus::PendingConfirmation,
                },
            ),
            r is Err ==> *final(tx) == *old(tx),
            final(tx).staged_tokens() == old(tx).staged_tokens(),
    {
        let email = subscriber.email.as_str().to_string();
        if find_email(&self.subscribers, &email) || find_email(&tx.subscribers, &email) {
            return Err(StorageError::DuplicateEmail);
        }
        if find_id(&self.subscribers, id).is_some() || find_id(&tx.subscribers, id).is_some() {
            return Err(StorageError::DuplicateId);
        }
        let row = Subscriber {
            id,
            email,
            name: subscriber.name.as_str().to_string(),
            subscribed_at,
            status: SubscriptionStatus::PendingConfirmation,
        };
        let ghost before = tx.staged_rows();
        tx.subscribers.push(row);
        proof {
            assert(tx.staged_rows() =~= before.push(row@));
            let rows = tx.staged_rows();
            assert forall|i: int, j: int|
                0 <= i < rows.len() && 0 <= j < rows.len() && i != j implies #[trigger] rows[i].id
                != #[trigger] rows[j].id && rows[i].email != rows[j].email by {
                if i == before.len() {
                    assert(rows[j] == before[j]);
                    if rows[j].id == id {
                        assert(id_taken(before, id));
                    }
                    if rows[j].email == email@ {
                        assert(email_taken(before, email@));
                    }
                } else if j == before.len() {
                    assert(rows[i] == before[i]);
                    if rows[i].id == id {
                        assert(id_taken(before, id));
                    }
                    if rows[i].email == email@ {
                        assert(email_taken(before, email@));
                    }
                } else {
                    assert(rows[i] == before[i] && rows[j] == before[j]);
                }
            }
        }
        Ok(id)
    }

    /// Stages a new subscriber, pending confirmation, under a fresh random
    /// id and the current time. Refused when the email address is taken,
    /// committed or staged, or when the random id is; the latter can happen
    /// only when some subscriber exists.
    pub fn insert_subscriber(&self, tx: &mut Transaction, subscriber: &NewSubscriber) -> (r: Result<
        SubscriberId,
        StorageError,
    >)
        requires
            old(tx).wf(),
        ensures
            final(tx).wf(),
            r == Err::<SubscriberId, StorageError>(StorageError::DuplicateEmail) <==> email_taken(
                self.rows(),
                subscriber.email@,
            ) || email_taken(old(tx).staged_rows(), subscriber.email@),
            r == Err::<SubscriberId, StorageError>(StorageError::DuplicateId) ==> self.rows().len()
                + old(tx).staged_rows().len() > 0,
            r is Err ==> *final(tx) == *old(tx) && (r == Err::<SubscriberId, StorageError>(
                StorageError::DuplicateEmail) || r == Err::<SubscriberId, StorageError>(
                StorageError::DuplicateId)),
            r matches Ok(id) ==> final(tx).staged_rows() == old(tx).staged_rows().push(
                SubscriberRecord {
                    id,
                    email: subscriber.email@,
                    name: subscriber.name@,
                    subscribed_at: final(tx).staged_rows().last().subscribed_at,
                    status: SubscriptionStatus::PendingConfirmation,
                },
            ),
            r matches Ok(id) ==> !id_taken(self.rows(), id) && !id_taken(old(tx).staged_rows(), id),
            final(tx).staged_tokens() == old(tx).staged_tokens(),
    {
        let id = random_subscriber_id();
        let subscribed_at = now_micros();
        self.insert_subscriber_with(tx, subscriber, id, subscribed_at)
    }

    /// Stages a token for a subscriber. Refused exactly when the token is
    /// taken, committed or staged.
    pub fn store_token(&self, tx: &mut Transaction, subscriber_id: SubscriberId, token: &str) -> (r:
        Result<(), StorageError>)
        requires
            old(tx).wf(),
        ensures
            final(tx).wf(),
            r is Err <==> token_taken(self.token_entries(), token@) || token_taken(
                old(tx).staged_tokens(),
                token@,
            ),
            r is Err ==> r == Err::<(), StorageError>(StorageError::DuplicateToken) && *final(tx)
                == *old(tx),
            r is Ok ==> final(tx).staged_tokens() == old(tx).staged_tokens().push(
                TokenEntry { token: token@, subscriber_id },
            ),
            final(tx).staged_rows() == old(tx).staged_rows(),
    {
        let token = token.to_string();
        if find_token(&self.tokens, &token).is_some() || find_token(&tx.tokens, &token).is_some() {
            return Err(StorageError::DuplicateToken);
        }
        let record = TokenRecord { token, subscriber_id };
        let ghost before = tx.staged_tokens();
        tx.tokens.push(record);
        proof {
            assert(tx.staged_tokens() =~= before.push(record@));
            let t = tx.staged_tokens();
            assert forall|i: int, j: int|
                0 <= i < t.len() && 0 <= j < t.len() && i != j implies #[trigger] t[i].token
                != #[trigger] t[j].token by {
                if i == before.len() {
                    assert(t[j] == before[j]);
                    if t[j].token == token@ {
                        assert(token_taken(before, token@));
                    }
                } else if j == before.len() {
                    assert(t[i] == before[i]);
                    if t[i].token == token@ {
                        assert(token_taken(before, token@));
                    }
                } else {
                    assert(t[i] == before[i] && t[j] == before[j]);
                }
            }
        }
        Ok(())
    }

    /// Makes the staged writes visible, all of them or none: refused when a
    /// staged email, id or token (checked in that order) was committed since
    /// the writes were staged.
    pub fn commit(&mut self, tx: Transaction) -> (r: Result<(), StorageError>)
        requires
            old(self).wf(),
            tx.wf(),
        ensures
            final(self).wf(),
            r == Err::<(), StorageError>(StorageError::DuplicateEmail) <==> email_conflict(
                old(self).rows(),
                tx.staged_rows(),
            ),
            r == Err::<(), StorageError>(StorageError::DuplicateId) <==> !email_conflict(
                old(self).rows(),
                tx.staged_rows(),
            ) && id_conflict(old(self).rows(), tx.staged_rows()),
            r == Err::<(), StorageError>(StorageError::DuplicateToken) <==> !email_conflict(
                old(self).rows(),
                tx.staged_rows(),
            ) && !id_conflict(old(self).rows(), tx.staged_rows()) && token_conflict(
                old(self).token_entries(),
                tx.staged_tokens(),
            ),
            r is Ok <==> !email_conflict(old(self).rows(), tx.staged_rows()) && !id_conflict(
                old(self).rows(),
                tx.staged_rows(),
            ) && !token_conflict(old(self).token_entries(), tx.staged_tokens()),
            r is Err ==> *final(self) == *old(self),
            r is Ok ==> final(self).rows() == old(self).rows() + tx.staged_rows()
                && final(self).token_entries() == old(self).token_entries() + tx.staged_tokens(),
    {
        let mut i: usize = 0;
        while i < tx.subscribers.len()
            invariant
                i <= tx.subscribers@.len(),
                *self == *old(self),
                self.wf(),
                forall|j: int|
                    0 <= j < i ==> !email_taken(self.rows(), (#[trigger] tx.staged_rows()[j]).email),
            decreases tx.subscribers.len() - i,
        {
            if find_email(&self.subscribers, &tx.subscribers[i].email) {
                assert(email_taken(self.rows(), tx.staged_rows()[i as int].email));
                return Err(StorageError::DuplicateEmail);
            }
            i = i + 1;
        }
        i = 0;
        while i < tx.subscribers.len()
            invariant
                i <= tx.subscribers@.len(),
                *self == *old(self),
                self.wf(),
                !email_conflict(self.rows(), tx.staged_rows()),
                forall|j: int|
                    0 <= j < i ==> !id_taken(self.rows(), (#[trigger] tx.staged_rows()[j]).id),
            decreases tx.subscribers.len() - i,
        {
            if find_id(&self.subscribers, tx.subscribers[i].id).is_some() {
                assert(id_taken(self.rows(), tx.staged_rows()[i as int].id));
                return Err(StorageError::DuplicateId);
            }
            i = i + 1;
        }
        i = 0;
        while i < tx.tokens.len()
            invariant
                i <= tx.tokens@.len(),
                *self == *old(self),
                self.wf(),
                !email_conflict(self.rows(), tx.staged_rows()),
                !id_conflict(self.rows(), tx.staged_rows()),
                forall|j: int|
                    0 <= j < i ==> !token_taken(
                        self.token_entries(),
                        (#[trigger] tx.staged_tokens()[j]).token,
                    ),
            decreases tx.tokens.len() - i,
        {
            if find_token(&self.tokens, &tx.tokens[i].token).is_some() {
                assert(token_taken(self.token_entries(), tx.staged_tokens()[i as int].token));
                return Err(StorageError::DuplicateToken);
            }
            i = i + 1;
        }
        let mut tx = tx;
        let ghost rows0 = self.rows();
        let ghost tokens0 = self.token_entries();
        let ghost staged_rows = tx.staged_rows();
        let ghost staged_tokens = tx.staged_tokens();
        let ghost subs0 = self.subscribers@;
        let ghost toks0 = self.tokens@;
        let ghost subs1 = tx.subscribers@;
        let ghost toks1 = tx.tokens@;
        self.subscribers.append(&mut tx.subscribers);
        self.tokens.append(&mut tx.tokens);
        proof {
            assert(records(subs0 + subs1) =~= records(subs0) + records(subs1));
            assert(entries(toks0 + toks1) =~= entries(toks0) + entries(toks1));
            lemma_rows_concat(rows0, staged_rows);
            lemma_tokens_concat(tokens0, staged_tokens);
        }
        Ok(())
    }

    /// The subscriber a token was stored for; `None` for a token never stored.
    pub fn find_subscriber_id_by_token(&self, token: &str) -> (r: Option<SubscriberId>)
        requires
            self.wf(),
        ensures
            r == lookup_token(self.token_entries(), token@),
    {
        let token = token.to_string();
        match find_token(&self.tokens, &token) {
            Some(i) => {
                proof {
                    let t = self.token_entries();
                    assert(t[i as int].token == token@);
                    assert(token_taken(t, token@));
                    let k = choose|k: int| 0 <= k < t.len() && (#[trigger] t[k]).token == token@;
                    assert(k == i);
                }
                Some(self.tokens[i].subscriber_id)
            },
            None => None,
        }
    }

    /// Marks the subscriber with this id confirmed; nothing changes when
    /// there is none, or when it is confirmed already.
    pub fn mark_confirmed(&mut self, subscriber_id: SubscriberId)
        requires
            old(self).wf(),
        ensures
            final(self).wf(),
            final(self).rows() == confirm_rows(old(self).rows(), subscriber_id),
            final(self).token_entries() == old(self).token_entries(),
    {
        let ghost before = self.rows();
        match find_id(&self.subscribers, subscriber_id) {
            Some(i) => {
                self.subscribers[i].status = SubscriptionStatus::Confirmed;
                proof {
                    assert forall|j: int| 0 <= j < before.len() && j != i implies (#[trigger] before[j]).id
                        != subscriber_id by {
                        assert(before[i as int].id == subscriber_id);
                    }
                    assert(self.rows() =~= confirm_rows(before, subscriber_id));
                }
            },
            None => {
                proof {
                    assert forall|j: int| 0 <= j < before.len() implies (#[trigger] before[j]).id
                        != subscriber_id by {
                        if before[j].id == subscriber_id {
                            assert(id_taken(before, subscriber_id));
                        }
                    }
                    assert(self.rows() =~= confirm_rows(before, subscriber_id));
                }
            },
        }
    }

    /// The status of the subscriber with this id, if there is one.
    pub fn status(&self, subscriber_id: SubscriberId) -> (r: Option<SubscriptionStatus>)
        requires
            self.wf(),
        ensures
            r == status_of(self.rows(), subscriber_id),
    {
        match find_id(&self.subscribers, subscriber_id) {
            Some(i) => {
                proof {
                    let rows = self.rows();
                    assert(rows[i as int].id == subscriber_id);
                    assert(id_taken(rows, subscriber_id));
                    let k = choose|k: int| 0 <= k < rows.len() && (#[trigger] rows[k]).id == subscriber_id;
                    assert(k == i);
                }
                Some(self.subscribers[i].status)
            },
            None => None,
        }
    }
}

/// A subscriber that was inserted (pending) and committed reads back with
/// the status it was inserted with; once marked confirmed it reads back as
/// confirmed.
pub proof fn lemma_confirm_round_trip(
    committed: Seq<SubscriberRecord>,
    staged: Seq<SubscriberRecord>,
    inserted: SubscriberRecord,
)
    requires
        rows_unique(committed + staged.push(inserted)),
    ensures
        status_of(committed + staged.push(inserted), inserted.id) == Some(inserted.status),
        status_of(confirm_rows(committed + staged.push(inserted), inserted.id), inserted.id)
            == Some(SubscriptionStatus::Confirmed),
{
    let rows = committed + staged.push(inserted);
    let last = rows.len() - 1;
    assert(rows[last] == inserted);
    assert(id_taken(rows, inserted.id));
    let k = choose|k: int| 0 <= k < rows.len() && (#[trigger] rows[k]).id == inserted.id;
    assert(k == last);
    let after = confirm_rows(rows, inserted.id);
    assert(after[last].id == inserted.id);
    assert(id_taken(after, inserted.id));
}

/// Marking a subscriber confirmed a second time changes nothing.
pub proof fn lemma_confirm_idempotent(rows: Seq<SubscriberRecord>, id: SubscriberId)
    ensures
        confirm_rows(confirm_rows(rows, id), id) == confirm_rows(rows, id),
{
    assert(confirm_rows(confirm_rows(rows, id), id) =~= confirm_rows(rows, id));
}

/// Marking any subscriber confirmed never moves a confirmed subscriber back
/// to pending.
pub proof fn lemma_confirmed_stays_confirmed(
    rows: Seq<SubscriberRecord>,
    id: SubscriberId,
    other: SubscriberId,
)
    requires
        rows_unique(rows),
        status_of(rows, other) == Some(SubscriptionStatus::Confirmed),
    ensures
        status_of(confirm_rows(rows, id), other) == Some(SubscriptionStatus::Confirmed),
{
    let k = choose|k: int| 0 <= k < rows.len() && (#[trigger] rows[k]).id == other;
    let after = confirm_rows(rows, id);
    assert(after[k].id == other);
    assert(id_taken(after, other));
    let k2 = choose|k2: int| 0 <= k2 < after.len() && (#[trigger] after[k2]).id == other;
    assert(rows[k2].id == other);
    assert(k2 == k);
}

/// A token that was never stored is not found.
pub proof fn lemma_unknown_token_not_found(tokens: Seq<TokenEntry>, token: Seq<char>)
    requires
        forall|i: int| 0 <= i < tokens.len() ==> (#[trigger] tokens[i]).token != token,
    ensures
        lookup_token(tokens, token) == None::<SubscriberId>,
{
}

/// A stored token is found, and leads to the subscriber it was stored for.
pub proof fn lemma_stored_token_found(tokens: Seq<TokenEntry>, i: int)
    requires
        tokens_unique(tokens),
        0 <= i < tokens.len(),
    ensures
        lookup_token(tokens, tokens[i].token) == Some(tokens[i].subscriber_id),
{
    assert(token_taken(tokens, tokens[i].token));
    let k = choose|k: int| 0 <= k < tokens.len() && (#[trigger] tokens[k]).token == tokens[i].token;
    assert(k == i);
}

} // verus!
