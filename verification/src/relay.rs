//! The authentication relay: it takes up the proxy's request to join the
//! session server, keeps track of the join that is under way for each
//! connection, and sends the one answer of each.

use std::collections::HashMap;
use vstd::prelude::*;
use crate::answer::{
    answer_payload, answer_to, build_custom_query_answer, view_of, AnswerView, CustomQueryAnswer,
    ANSWER_FAILURE,
};
use crate::join::{JoinPhase, OpenAuthModJoinTask};
use crate::plugin::ViaVersionPlugin;
use crate::text::same_text;

verus! {

broadcast use vstd::std_specs::hash::group_hash_axioms;

/// What the relay needs of an account: its identifier and its credential,
/// which an offline-mode account does not have.
#[derive(Clone, Debug, PartialEq, Eq)]
pub struct Account {
    pub uuid: u128,
    pub access_token: Option<String>,
}

/// A login-phase custom query, as it arrived on the connection `entity`.
#[derive(Clone, Debug, PartialEq, Eq)]
pub struct CustomQuery {
    pub entity: u64,
    pub transaction_id: u32,
    pub identifier: String,
    /// Set where the relay answers the query itself, so that no automatic
    /// reply goes out for it.
    pub disabled: bool,
}

/// What a query is to the relay.
#[derive(Clone, Copy, Debug, PartialEq, Eq, Structural)]
pub enum QueryKind {
    /// A query under another identifier: not the relay's.
    Foreign,
    /// A join request whose payload could not be read.
    Malformed,
    /// A join request on a connection without an account.
    Unaccounted,
    /// A join request to an account without a credential.
    Offline,
    /// A join request to an account with a credential.
    Online,
}

/// What the relay made of a query.
#[derive(Debug, PartialEq, Eq)]
pub enum QueryVerdict {
    /// The query is not the relay's: it is left as it was.
    Ignored,
    /// The payload could not be read: the query is dropped, left as it was.
    Malformed,
    /// The connection has no account: the query is left as it was.
    NoAccount,
    /// The account has no credential: this answer, a failure, goes out at
    /// once.
    Refused(CustomQueryAnswer),
    /// A join is under way for the connection, and the caller is to run it.
    Spawned(OpenAuthModJoinTask),
}

/// A join task that has come to its end, with the answer it gave, if any.
#[derive(Debug, PartialEq, Eq)]
pub struct FinishedJoin {
    pub entity: u64,
    pub answer: Option<CustomQueryAnswer>,
}

/// What is to be done about a join task that has come to its end.
#[derive(Debug, PartialEq, Eq)]
pub enum RelayCommand {
    /// No join was under way for the connection: the result is dropped.
    Discard { entity: u64 },
    /// The join gave no answer for the transaction that is under way:
    /// nothing is sent, and the handshake is left without a reply.
    ReportFailure { entity: u64 },
    /// Send the answer, and mark the connection as authenticated where the
    /// answer reports success.
    Send { entity: u64, answer: CustomQueryAnswer, authenticated: bool },
}

/// What a command holds.
pub enum CommandView {
    Discard { entity: u64 },
    ReportFailure { entity: u64 },
    Send { entity: u64, answer: AnswerView, authenticated: bool },
}

impl View for RelayCommand {
    type V = CommandView;

    open spec fn view(&self) -> CommandView {
        match *self {
            RelayCommand::Discard { entity } => CommandView::Discard { entity },
            RelayCommand::ReportFailure { entity } => CommandView::ReportFailure { entity },
            RelayCommand::Send { entity, answer, authenticated } => CommandView::Send {
                entity,
                answer: answer@,
                authenticated,
            },
        }
    }
}

/// What comes in at the relay.
pub enum RelayInput {
    /// A custom query on the connection `entity`.
    Query { entity: u64, transaction_id: u32, kind: QueryKind },
    /// The join task of the connection `entity` has come to its end.
    Finished { entity: u64, answer: Option<AnswerView> },
}

/// The joins that are under way: for each connection that has one, the
/// transaction it will answer.
pub struct AuthRelay {
    pending: HashMap<u64, u32>,
}

impl View for AuthRelay {
    type V = Map<u64, u32>;

    closed spec fn view(&self) -> Map<u64, u32> {
        self.pending@
    }
}

/// The identifier of the query that asks for a join.
pub open spec fn join_identifier() -> Seq<char> {
    "oam:join"@
}

/// What a query under `identifier` is to the relay, given whether its
/// payload could be read and what account the connection has.
pub open spec fn query_kind(identifier: Seq<char>, readable: bool, account: Option<&Account>) -> QueryKind {
    if identifier != join_identifier() {
        QueryKind::Foreign
    } else if !readable {
        QueryKind::Malformed
    } else {
        match account {
            None => QueryKind::Unaccounted,
            Some(account) => if account.access_token is None {
                QueryKind::Offline
            } else {
                QueryKind::Online
            },
        }
    }
}

/// Whether the relay takes a query of this kind upon itself, so that no
/// automatic reply goes out for it.
pub open spec fn takes_up(kind: QueryKind) -> bool {
    kind is Offline || kind is Online
}

/// Whether a join for `transaction_id` is under way on `entity`.
pub open spec fn awaits(pending: Map<u64, u32>, entity: u64, transaction_id: u32) -> bool {
    pending.contains_key(entity) && pending[entity] == transaction_id
}

/// The joins under way after `input`.
pub open spec fn pending_after(pending: Map<u64, u32>, input: RelayInput) -> Map<u64, u32> {
    match input {
        RelayInput::Query { entity, transaction_id, kind } => if kind is Online {
            pending.insert(entity, transaction_id)
        } else {
            pending
        },
        RelayInput::Finished { entity, answer } => pending.remove(entity),
    }
}

/// The answer that goes out upon `input`, and the connection it goes out on.
///
/// A join request to an account without a credential is answered at once,
/// with a failure. The answer of a join task goes out where it is for the
/// transaction that is under way on its connection.
pub open spec fn sent_upon(pending: Map<u64, u32>, input: RelayInput) -> Option<(u64, AnswerView)> {
    match input {
        RelayInput::Query { entity, transaction_id, kind } => if kind is Offline {
            Some((entity, answer_to(transaction_id, false)))
        } else {
            None
        },
        RelayInput::Finished { entity, answer } => match answer {
            Some(packet) => if awaits(pending, entity, packet.transaction_id) {
                Some((entity, packet))
            } else {
                None
            },
            None => None,
        },
    }
}

/// Whether `verdict` is what the relay makes of a query of `kind`.
pub open spec fn verdict_for(
    verdict: QueryVerdict,
    kind: QueryKind,
    transaction_id: u32,
    hash: Option<String>,
    account: Option<&Account>,
) -> bool {
    match kind {
        QueryKind::Foreign => verdict is Ignored,
        QueryKind::Malformed => verdict is Malformed,
        QueryKind::Unaccounted => verdict is NoAccount,
        QueryKind::Offline => verdict matches QueryVerdict::Refused(answer) && answer@ == answer_to(
            transaction_id,
            false,
        ),
        QueryKind::Online => {
            &&& verdict matches QueryVerdict::Spawned(task)
            &&& hash matches Some(hash)
            &&& account matches Some(account)
            &&& account.access_token matches Some(token)
            &&& task == (OpenAuthModJoinTask {
                transaction_id,
                hash,
                uuid: account.uuid,
                token,
                phase: JoinPhase::Joining,
            })
        },
    }
}

/// What is to be done about the join task of `entity` that ended with
/// `answer`: the answer that goes out upon its end is sent; where none goes
/// out, the connection is left without a reply if it had a join under way,
/// and the result is dropped if it had none.
pub open spec fn command_for(pending: Map<u64, u32>, entity: u64, answer: Option<AnswerView>) -> CommandView {
    match sent_upon(pending, RelayInput::Finished { entity, answer }) {
        Some((connection, packet)) => CommandView::Send {
            entity: connection,
            answer: packet,
            authenticated: packet.data == Some(answer_payload(true)),
        },
        None => if pending.contains_key(entity) {
            CommandView::ReportFailure { entity }
        } else {
            CommandView::Discard { entity }
        },
    }
}

/// The answer that goes out with `verdict` on the connection `entity`.
pub open spec fn refusal(verdict: QueryVerdict, entity: u64) -> Option<(u64, AnswerView)> {
    match verdict {
        QueryVerdict::Refused(answer) => Some((entity, answer@)),
        _ => None,
    }
}

/// The joins under way once the first `n` of `finished` are dealt with.
pub open spec fn pending_without(pending: Map<u64, u32>, finished: Seq<FinishedJoin>, n: int) -> Map<
    u64,
    u32,
>
    decreases n,
{
    if n <= 0 {
        pending
    } else {
        pending_after(
            pending_without(pending, finished, n - 1),
            RelayInput::Finished {
                entity: finished[n - 1].entity,
                answer: view_of(finished[n - 1].answer),
            },
        )
    }
}

impl AuthRelay {
    /// A relay with no join under way.
    pub fn new() -> (relay: AuthRelay)
        ensures
            relay@ == Map::<u64, u32>::empty(),
    {
        AuthRelay { pending: HashMap::new() }
    }

    /// The transaction that the join under way on `entity` will answer.
    pub fn pending_transaction(&self, entity: u64) -> (transaction_id: Option<u32>)
        ensures
            transaction_id == if self@.contains_key(entity) {
                Some(self@[entity])
            } else {
                None
            },
    {
        match self.pending.get(&entity) {
            Some(transaction_id) => Some(*transaction_id),
            None => None,
        }
    }

    /// Forgets the join of a connection that is gone: whatever its task
    /// gives later is dropped.
    pub fn forget(&mut self, entity: u64)
        ensures
            final(self)@ == old(self)@.remove(entity),
    {
        self.pending.remove(&entity);
    }

    /// How many joins are under way.
    pub fn pending_count(&self) -> (count: usize)
        ensures
            count == self@.len(),
    {
        self.pending.len()
    }
}

impl ViaVersionPlugin {
    /// Takes up a custom query.
    ///
    /// Only a query under the join identifier is the relay's. `hash` is the
    /// challenge read from its payload, `None` where the payload could not
    /// be read; `account` is the account of the connection. A join request
    /// that can be taken up is marked, so that no automatic reply goes out
    /// for it. Where the account has no credential the answer is a failure,
    /// at once and without a join. Otherwise a join task is begun, and is
    /// from now on the one under way for the connection.
    pub fn handle_oauth(
        relay: &mut AuthRelay,
        query: &mut CustomQuery,
        hash: Option<String>,
        account: Option<&Account>,
    ) -> (verdict: QueryVerdict)
        ensures
            ({
                let kind = query_kind(old(query).identifier@, hash is Some, account);
                let input = RelayInput::Query {
                    entity: old(query).entity,
                    transaction_id: old(query).transaction_id,
                    kind,
                };
                &&& final(relay)@ == pending_after(old(relay)@, input)
                &&& refusal(verdict, old(query).entity) == sent_upon(old(relay)@, input)
                &&& verdict_for(verdict, kind, old(query).transaction_id, hash, account)
                &&& final(query).disabled == (old(query).disabled || takes_up(kind))
                &&& final(query).entity == old(query).entity
                &&& final(query).transaction_id == old(query).transaction_id
                &&& final(query).identifier == old(query).identifier
            }),
    {
        if !same_text(query.identifier.as_str(), "oam:join") {
            return QueryVerdict::Ignored;
        }
        let hash = match hash {
            Some(hash) => hash,
            None => {
                return QueryVerdict::Malformed;
            },
        };
        let account = match account {
            Some(account) => account,
            None => {
                return QueryVerdict::NoAccount;
            },
        };
        query.disabled = true;
        match &account.access_token {
            None => QueryVerdict::Refused(build_custom_query_answer(query.transaction_id, false)),
            Some(token) => {
                let (task, _) = OpenAuthModJoinTask::start(
                    query.transaction_id,
                    hash,
                    account.uuid,
                    token.clone(),
                );
                relay.pending.insert(query.entity, query.transaction_id);
                QueryVerdict::Spawned(task)
            },
        }
    }

    /// Deals with the join tasks that have come to their end since the last
    /// tick, in order, and gives one command for each.
    ///
    /// The join of each of these connections is no longer under way. A task
    /// of a connection that had none under way is dropped. A task without an
    /// answer, or with one for another transaction than the one under way,
    /// leaves the connection without a reply. Otherwise the answer is sent,
    /// and the connection counts as authenticated where it reports success.
    pub fn poll_all_oam_join_tasks(relay: &mut AuthRelay, finished: Vec<FinishedJoin>) -> (commands:
        Vec<RelayCommand>)
        ensures
            commands.len() == finished.len(),
            forall|i: int|
                0 <= i < finished.len() ==> (#[trigger] commands[i])@ == command_for(
                    pending_without(old(relay)@, finished@, i),
                    finished[i].entity,
                    view_of(finished[i].answer),
                ),
            final(relay)@ == pending_without(old(relay)@, finished@, finished.len() as int),
    {
        let ghost before = relay@;
        let ghost all = finished@;
        let mut commands: Vec<RelayCommand> = Vec::new();
        for item in it: finished.into_iter()
            invariant
                it.seq() == all,
                commands.len() == it.index(),
                relay@ == pending_without(before, all, it.index() as int),
                forall|i: int|
                    0 <= i < it.index() ==> (#[trigger] commands[i])@ == command_for(
                        pending_without(before, all, i),
                        all[i].entity,
                        view_of(all[i].answer),
                    ),
        {
            let command = relay.settle(item);
            commands.push(command);
        }
        commands
    }
}

impl AuthRelay {
    /// Deals with one join task that has come to its end.
    fn settle(&mut self, item: FinishedJoin) -> (command: RelayCommand)
        ensures
            command@ == command_for(old(self)@, item.entity, view_of(item.answer)),
            final(self)@ == old(self)@.remove(item.entity),
    {
        let FinishedJoin { entity, answer } = item;
        match self.pending.remove(&entity) {
            None => RelayCommand::Discard { entity },
            Some(transaction_id) => match answer {
                Some(packet) => {
                    if packet.transaction_id == transaction_id {
                        let authenticated = packet.reports_success();
                        RelayCommand::Send { entity, answer: packet, authenticated }
                    } else {
                        RelayCommand::ReportFailure { entity }
                    }
                },
                None => RelayCommand::ReportFailure { entity },
            },
        }
    }
}

/// A join request to an account without a credential is answered at once
/// with the failure byte, for its own transaction, and no join is begun for
/// it: the joins under way are as they were.
pub proof fn lemma_offline_account_is_refused(
    pending: Map<u64, u32>,
    entity: u64,
    transaction_id: u32,
    identifier: Seq<char>,
    account: Account,
)
    requires
        identifier == join_identifier(),
        account.access_token is None,
    ensures
        ({
            let kind = query_kind(identifier, true, Some(&account));
            let input = RelayInput::Query { entity, transaction_id, kind };
            &&& kind == QueryKind::Offline
            &&& sent_upon(pending, input) == Some(
                (
                    entity,
                    AnswerView { transaction_id, data: Some(seq![ANSWER_FAILURE]) },
                ),
            )
            &&& pending_after(pending, input) == pending
        }),
{
}

/// The joins under way after all of `inputs`, from none on.
pub open spec fn relay_after(inputs: Seq<RelayInput>) -> Map<u64, u32>
    decreases inputs.len(),
{
    if inputs.len() == 0 {
        Map::empty()
    } else {
        pending_after(relay_after(inputs.drop_last()), inputs.last())
    }
}

/// Whether `sent` is an answer to the transaction `transaction_id` on the
/// connection `entity`.
pub open spec fn answers(sent: Option<(u64, AnswerView)>, entity: u64, transaction_id: u32) -> bool {
    sent matches Some((connection, packet)) && connection == entity && packet.transaction_id
        == transaction_id
}

/// How many answers to the transaction `transaction_id` go out on the
/// connection `entity` in the course of `inputs`.
pub open spec fn answers_sent(inputs: Seq<RelayInput>, entity: u64, transaction_id: u32) -> nat
    decreases inputs.len(),
{
    if inputs.len() == 0 {
        0
    } else {
        let before = answers_sent(inputs.drop_last(), entity, transaction_id);
        if answers(
            sent_upon(relay_after(inputs.drop_last()), inputs.last()),
            entity,
            transaction_id,
        ) {
            before + 1
        } else {
            before
        }
    }
}

/// Whether `input` is a join request for the transaction `transaction_id`
/// on the connection `entity` that the relay takes up.
pub open spec fn requests_join(input: RelayInput, entity: u64, transaction_id: u32) -> bool {
    input matches RelayInput::Query { entity: connection, transaction_id: transaction, kind }
        && connection == entity && transaction == transaction_id && takes_up(kind)
}

/// How many join requests for the transaction `transaction_id` on the
/// connection `entity` the relay takes up in the course of `inputs`.
pub open spec fn join_requests(inputs: Seq<RelayInput>, entity: u64, transaction_id: u32) -> nat
    decreases inputs.len(),
{
    if inputs.len() == 0 {
        0
    } else {
        let before = join_requests(inputs.drop_last(), entity, transaction_id);
        if requests_join(inputs.last(), entity, transaction_id) {
            before + 1
        } else {
            before
        }
    }
}

/// The answers that went out for a transaction, and the one that may still
/// go out because its join is under way, are together no more than the join
/// requests that were taken up for it.
pub proof fn lemma_answers_are_requested(inputs: Seq<RelayInput>, entity: u64, transaction_id: u32)
    ensures
        answers_sent(inputs, entity, transaction_id) + (if awaits(
            relay_after(inputs),
            entity,
            transaction_id,
        ) {
            1nat
        } else {
            0nat
        }) <= join_requests(inputs, entity, transaction_id),
    decreases inputs.len(),
{
    if inputs.len() > 0 {
        lemma_answers_are_requested(inputs.drop_last(), entity, transaction_id);
    }
}

/// Whatever comes in at the relay, and in whatever order: a transaction for
/// which one join request was taken up gets at most one answer, and one for
/// which none was taken up, such as a query under another identifier, gets
/// none.
pub proof fn lemma_one_answer_per_transaction(
    inputs: Seq<RelayInput>,
    entity: u64,
    transaction_id: u32,
)
    ensures
        join_requests(inputs, entity, transaction_id) <= 1 ==> answers_sent(
            inputs,
            entity,
            transaction_id,
        ) <= 1,
        join_requests(inputs, entity, transaction_id) == 0 ==> answers_sent(
            inputs,
            entity,
            transaction_id,
        ) == 0,
{
    lemma_answers_are_requested(inputs, entity, transaction_id);
}

} // verus!
