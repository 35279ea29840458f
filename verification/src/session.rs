//! The embed operation, step by step.
//!
//! The provider's caller performs one HTTP exchange per document and
//! hands each outcome back into an [`EmbedSession`]. The session owns
//! every decision: which document is pending, what each outcome means,
//! and that the operation either yields one embedding per document in
//! input order or fails as a whole with the first exchange's error.

use vstd::prelude::*;

use crate::embedding::Embedding;
use crate::error::EmbedError;
use crate::error::ShapeKind;
use crate::wire::ResponseBody;
use crate::wire::body_embedding;
use crate::wire::body_shape_error;

verus! {

/// What one document's HTTP exchange came to, as the caller observed
/// it. The caller performs the exchange and the JSON parse of the
/// body; the session decides what the outcome means.
#[derive(Debug, Clone, PartialEq)]
pub enum ServiceOutcome {
    /// The service could not be reached: connection, DNS or TLS
    /// failure, carrying the transport layer's message.
    Transport { detail: String },
    /// The service answered with a non-success HTTP status; the body
    /// is kept verbatim as context and not interpreted.
    Status { status: u16, body: String },
    /// The service answered with success, but the body did not parse
    /// as the expected JSON shape.
    MalformedBody { detail: String },
    /// The service answered with success and the body parsed.
    Parsed { body: ResponseBody },
}

/// The embedding an outcome yields, when it yields one: the body
/// parsed, its result sequence is non-empty, and the first entry
/// carries an embedding.
pub open spec fn outcome_embedding(o: ServiceOutcome) -> Option<Seq<u32>> {
    match o {
        ServiceOutcome::Parsed { body } => body_embedding(body),
        _ => None,
    }
}

/// Whether an outcome yields an embedding.
pub open spec fn outcome_ok(o: ServiceOutcome) -> bool {
    outcome_embedding(o) is Some
}

/// The error a failing outcome amounts to, for the document at
/// `index`: transport and service failures are surfaced as they came,
/// everything else is a shape error, distinguishable from both.
pub open spec fn outcome_error(o: ServiceOutcome, index: usize) -> EmbedError
    recommends
        !outcome_ok(o),
{
    match o {
        ServiceOutcome::Transport { detail } => EmbedError::Transport { index, detail },
        ServiceOutcome::Status { status, body } => EmbedError::Service { index, status, body },
        ServiceOutcome::MalformedBody { detail } => EmbedError::Shape {
            index,
            kind: ShapeKind::MalformedBody { detail },
        },
        ServiceOutcome::Parsed { body } => EmbedError::Shape {
            index,
            kind: body_shape_error(body),
        },
    }
}

/// All outcomes strictly before `k` yield an embedding.
pub open spec fn all_ok_before(outcomes: Seq<ServiceOutcome>, k: int) -> bool {
    forall|i: int| 0 <= i < k ==> outcome_ok(#[trigger] outcomes[i])
}

/// The index of the first outcome that yields no embedding, if any
/// outcome fails.
pub open spec fn first_failure(outcomes: Seq<ServiceOutcome>) -> Option<int>
    decreases outcomes.len(),
{
    if outcomes.len() == 0 {
        None
    } else if !outcome_ok(outcomes[0]) {
        Some(0)
    } else {
        match first_failure(outcomes.skip(1)) {
            Some(j) => Some(j + 1),
            None => None,
        }
    }
}

proof fn lemma_first_failure_none(outcomes: Seq<ServiceOutcome>)
    requires
        all_ok_before(outcomes, outcomes.len() as int),
    ensures
        first_failure(outcomes) is None,
    decreases outcomes.len(),
{
    if outcomes.len() > 0 {
        assert(outcome_ok(outcomes[0]));
        assert forall|i: int| 0 <= i < outcomes.skip(1).len() implies outcome_ok(
            #[trigger] outcomes.skip(1)[i],
        ) by {
            assert(outcomes.skip(1)[i] == outcomes[i + 1]);
        }
        lemma_first_failure_none(outcomes.skip(1));
    }
}

proof fn lemma_first_failure_at(outcomes: Seq<ServiceOutcome>, k: int)
    requires
        0 <= k < outcomes.len(),
        all_ok_before(outcomes, k),
        !outcome_ok(outcomes[k]),
    ensures
        first_failure(outcomes) == Some(k),
    decreases k,
{
    if k > 0 {
        assert(outcome_ok(outcomes[0]));
        assert forall|i: int| 0 <= i < k - 1 implies outcome_ok(
            #[trigger] outcomes.skip(1)[i],
        ) by {
            assert(outcomes.skip(1)[i] == outcomes[i + 1]);
        }
        assert(outcomes.skip(1)[k - 1] == outcomes[k]);
        lemma_first_failure_at(outcomes.skip(1), k - 1);
    }
}

/// What a completed embed operation must return for the given
/// outcomes: when every exchange yields an embedding, the full list,
/// one embedding per outcome in the same order; otherwise exactly the
/// error of the first failing exchange, with that document's index.
pub open spec fn embed_result_matches(
    outcomes: Seq<ServiceOutcome>,
    r: Result<Vec<Embedding>, EmbedError>,
) -> bool {
    match first_failure(outcomes) {
        None => match r {
            Ok(v) => {
                &&& v@.len() == outcomes.len()
                &&& forall|i: int|
                    0 <= i < outcomes.len() ==> Some((#[trigger] v@[i])@) == outcome_embedding(
                        outcomes[i],
                    )
            },
            Err(_) => false,
        },
        Some(k) => r == Err::<Vec<Embedding>, EmbedError>(outcome_error(outcomes[k], k as usize)),
    }
}

/// An empty batch succeeds with the empty embedding list: with no
/// outcomes there is no failure, so whatever satisfies
/// `embed_result_matches` is `Ok` and empty. Together with
/// `EmbedSession::next_index`, which asks for no exchange on an empty
/// document list, this is the whole behaviour of embedding nothing.
pub proof fn lemma_embed_empty(r: Result<Vec<Embedding>, EmbedError>)
    requires
        embed_result_matches(Seq::empty(), r),
    ensures
        r matches Ok(v) && v@.len() == 0,
{
}

/// When every exchange succeeds, each document's embedding is derived
/// solely from that document's own exchange: two embed operations
/// whose exchanges agree at position `i` return the same embedding
/// there, whatever happened elsewhere in either batch.
pub proof fn lemma_embedding_from_own_exchange_only(
    o1: Seq<ServiceOutcome>,
    o2: Seq<ServiceOutcome>,
    r1: Result<Vec<Embedding>, EmbedError>,
    r2: Result<Vec<Embedding>, EmbedError>,
    i: int,
)
    requires
        embed_result_matches(o1, r1),
        embed_result_matches(o2, r2),
        first_failure(o1) is None,
        first_failure(o2) is None,
        0 <= i < o1.len(),
        0 <= i < o2.len(),
        o1[i] == o2[i],
    ensures
        r1 matches Ok(v1) && r2 matches Ok(v2) && v1@[i]@ == v2@[i]@,
{
    match (r1, r2) {
        (Ok(v1), Ok(v2)) => {
            assert(Some(v1@[i]@) == outcome_embedding(o1[i]));
            assert(Some(v2@[i]@) == outcome_embedding(o2[i]));
        },
        _ => {},
    }
}

/// One embed operation in progress: the documents, the embeddings
/// accumulated so far, and the failure that ended it early, if one
/// did. The ghost history records the outcome of every completed
/// exchange, so the contracts can tie each embedding to the exchange
/// it came from.
pub struct EmbedSession {
    /// The documents to embed, in input order.
    pub docs: Vec<String>,
    /// How many documents have an outcome already.
    pub pos: usize,
    /// One embedding per succeeded document, in input order.
    pub acc: Vec<Embedding>,
    /// The failure that ended the operation, if it failed.
    pub failed: Option<EmbedError>,
    /// The outcomes applied so far, oldest first.
    pub history: Ghost<Seq<ServiceOutcome>>,
}

impl EmbedSession {
    /// The session's invariant: embeddings and outcomes correspond one
    /// to one and in order, and a failure, if present, is exactly the
    /// error of the last applied outcome.
    pub open spec fn wf(self) -> bool {
        &&& self.pos <= self.docs@.len()
        &&& self.history@.len() == self.pos
        &&& match self.failed {
            None => {
                &&& self.acc@.len() == self.pos
                &&& forall|i: int|
                    0 <= i < self.pos ==> outcome_embedding(#[trigger] self.history@[i]) == Some(
                        self.acc@[i]@,
                    )
            },
            Some(e) => {
                &&& self.pos >= 1
                &&& self.acc@.len() == self.pos - 1
                &&& forall|i: int|
                    0 <= i < self.pos - 1 ==> outcome_embedding(#[trigger] self.history@[i])
                        == Some(self.acc@[i]@)
                &&& !outcome_ok(self.history@[self.pos - 1])
                &&& e == outcome_error(self.history@[self.pos - 1], (self.pos - 1) as usize)
            },
        }
    }

    /// The session is over: it failed, or every document has an
    /// outcome.
    pub open spec fn spec_done(self) -> bool {
        self.failed is Some || self.pos == self.docs@.len()
    }

    /// Starts an embed operation over the given documents.
    pub fn new(docs: Vec<String>) -> (s: EmbedSession)
        ensures
            s.wf(),
            s.docs == docs,
            s.pos == 0,
            s.failed is None,
            s.history@ == Seq::<ServiceOutcome>::empty(),
    {
        EmbedSession {
            docs,
            pos: 0,
            acc: Vec::new(),
            failed: None,
            history: Ghost(Seq::empty()),
        }
    }

    /// The index of the document whose exchange should happen next, or
    /// `None` when nothing more may be sent: after a failure no later
    /// document is processed, and an empty document list is over at
    /// once — no network exchange is owed for it.
    pub fn next_index(&self) -> (r: Option<usize>)
        requires
            self.wf(),
        ensures
            r == (if !self.spec_done() {
                Some(self.pos)
            } else {
                None::<usize>
            }),
    {
        if self.failed.is_none() && self.pos < self.docs.len() {
            Some(self.pos)
        } else {
            None
        }
    }

    /// Applies the outcome of the pending document's exchange: a
    /// usable body appends its embedding, anything else fails the
    /// whole operation with that document's error.
    pub fn apply_outcome(&mut self, outcome: ServiceOutcome)
        requires
            old(self).wf(),
            !old(self).spec_done(),
        ensures
            final(self).wf(),
            final(self).docs == old(self).docs,
            final(self).pos == old(self).pos + 1,
            final(self).history@ == old(self).history@.push(outcome),
            outcome_ok(outcome) ==> final(self).failed is None,
            !outcome_ok(outcome) ==> final(self).failed == Some(
                outcome_error(outcome, old(self).pos),
            ),
    {
        let index: usize = self.pos;
        let n: usize = self.docs.len();
        assert(index < n);
        self.history = Ghost(self.history@.push(outcome));
        self.pos = self.pos + 1;
        match outcome {
            ServiceOutcome::Parsed { body } => match body.into_first_embedding() {
                Ok(e) => {
                    self.acc.push(e);
                },
                Err(kind) => {
                    self.failed = Some(EmbedError::Shape { index, kind });
                },
            },
            ServiceOutcome::Transport { detail } => {
                self.failed = Some(EmbedError::Transport { index, detail });
            },
            ServiceOutcome::Status { status, body } => {
                self.failed = Some(EmbedError::Service { index, status, body });
            },
            ServiceOutcome::MalformedBody { detail } => {
                self.failed = Some(EmbedError::Shape {
                    index,
                    kind: ShapeKind::MalformedBody { detail },
                });
            },
        }
    }

    /// Ends the session: the full embedding list — one embedding per
    /// document, in input order — when every exchange succeeded, or
    /// the error that stopped the operation.
    pub fn finish(self) -> (r: Result<Vec<Embedding>, EmbedError>)
        requires
            self.wf(),
            self.spec_done(),
        ensures
            match r {
                Ok(v) => {
                    &&& self.failed is None
                    &&& v@.len() == self.docs@.len()
                    &&& forall|i: int|
                        0 <= i < v@.len() ==> Some((#[trigger] v@[i])@) == outcome_embedding(
                            self.history@[i],
                        )
                },
                Err(e) => self.failed == Some(e),
            },
    {
        match self.failed {
            Some(e) => Err(e),
            None => Ok(self.acc),
        }
    }

    /// Runs a whole embed operation against a precomputed outcome per
    /// document: outcomes past the first failing one are never looked
    /// at, as the live operation never performs those exchanges.
    pub fn run(self, outcomes: Vec<ServiceOutcome>) -> (r: Result<Vec<Embedding>, EmbedError>)
        requires
            self.wf(),
            self.pos == 0,
            self.failed is None,
            outcomes@.len() == self.docs@.len(),
        ensures
            embed_result_matches(outcomes@, r),
    {
        let ghost all = outcomes@;
        let mut session = self;
        let mut rest = outcomes;
        proof {
            assert(session.history@ =~= all.take(0));
        }
        while session.failed.is_none() && session.pos < session.docs.len()
            invariant
                session.wf(),
                session.docs@.len() == all.len(),
                session.history@ == all.take(session.pos as int),
                rest@ == all.skip(session.pos as int),
            decreases all.len() - session.pos,
        {
            let ghost p: int = session.pos as int;
            let ghost rest0 = rest@;
            let outcome = rest.remove(0);
            proof {
                assert(rest0[0] == all[p]);
                assert(rest@ =~= all.skip(p + 1));
                assert(all.take(p).push(all[p]) =~= all.take(p + 1));
            }
            session.apply_outcome(outcome);
        }
        proof {
            let p: int = session.pos as int;
            if session.failed is None {
                assert(all.take(p) =~= all);
                assert forall|i: int| 0 <= i < all.len() implies outcome_ok(#[trigger] all[i]) by {
                    assert(all[i] == session.history@[i]);
                    assert(outcome_embedding(session.history@[i]) == Some(session.acc@[i]@));
                }
                lemma_first_failure_none(all);
            } else {
                let k: int = p - 1;
                assert(session.history@[k] == all[k]);
                assert forall|i: int| 0 <= i < k implies outcome_ok(#[trigger] all[i]) by {
                    assert(all[i] == session.history@[i]);
                    assert(outcome_embedding(session.history@[i]) == Some(session.acc@[i]@));
                }
                lemma_first_failure_at(all, k);
            }
        }
        let ghost history = session.history@;
        let r = session.finish();
        proof {
            if session.failed is None {
                assert(history =~= all);
            }
        }
        r
    }
}

} // verus!
