//! Subscription filters over raw Solana bytes, and the request they turn into.

use aperture_grpc_proto::VoteFilter;
use vstd::prelude::*;

verus! {

/// The vote filter of the Aperture protocol, an enumeration generated from its
/// protobuf definition.
#[verifier::external_type_specification]
#[verifier::external_body]
pub struct ExVoteFilter(VoteFilter);

/// `Clone::clone` on a `VoteFilter`, which prost generates as a `Copy`
/// enumeration: the clone is the same value.
pub assume_specification[ <VoteFilter as Clone>::clone ](vote: &VoteFilter) -> (r: VoteFilter)
    ensures
        r == *vote,
;

/// `Default::default` on a `VoteFilter`: prost's `Enumeration` derive makes the
/// default the first variant of the protobuf enumeration, `All`, whose number is 0.
pub assume_specification[ <VoteFilter as Default>::default ]() -> (vote: VoteFilter)
    ensures
        vote_filter_number(vote) == 0,
;

/// What `vote as i32` gives for a vote filter: its protobuf enumeration number.
pub uninterp spec fn vote_filter_number(vote: VoteFilter) -> i32;

/// Converts a `VoteFilter` to its protobuf enumeration number with `as i32`.
/// The generated enumeration numbers its three variants `All`, `VoteOnly` and
/// `NonVoteOnly` with 0, 1 and 2.
#[verifier::external_body]
fn vote_filter_as_i32(vote: VoteFilter) -> (number: i32)
    ensures
        number == vote_filter_number(vote),
        0 <= number <= 2,
{
    vote as i32
}

/// SubscribeTransactions filters using raw Solana bytes.
#[derive(Debug, Clone, PartialEq, Eq)]
pub struct SubscribeFilters {
    pub vote: VoteFilter,
    pub signature: Option<[u8; 64]>,
    pub account_include: Vec<[u8; 32]>,
    pub account_exclude: Vec<[u8; 32]>,
    pub account_required: Vec<[u8; 32]>,
    pub signatures_only: bool,
    /// Wait for transaction simulation and append the result to each transaction.
    pub include_simulation: bool,
}

impl Default for SubscribeFilters {
    /// Filters that let every transaction through: all votes, no signature, no
    /// account lists, full payloads, no simulation.
    fn default() -> (filters: SubscribeFilters)
        ensures
            vote_filter_number(filters.vote) == 0,
            filters.signature is None,
            filters.account_include@.len() == 0,
            filters.account_exclude@.len() == 0,
            filters.account_required@.len() == 0,
            !filters.signatures_only,
            !filters.include_simulation,
    {
        SubscribeFilters {
            vote: VoteFilter::default(),
            signature: None,
            account_include: Vec::new(),
            account_exclude: Vec::new(),
            account_required: Vec::new(),
            signatures_only: false,
            include_simulation: false,
        }
    }
}

impl SubscribeFilters {
    /// These filters with the vote filter `vote`.
    pub fn vote(self, vote: VoteFilter) -> (filters: SubscribeFilters)
        ensures
            filters == (SubscribeFilters { vote, ..self }),
    {
        let mut filters = self;
        filters.vote = vote;
        filters
    }

    /// These filters, matching only transactions whose primary signature is `signature`.
    pub fn signature(self, signature: [u8; 64]) -> (filters: SubscribeFilters)
        ensures
            filters == (SubscribeFilters { signature: Some(signature), ..self }),
    {
        let mut filters = self;
        filters.signature = Some(signature);
        filters
    }

    /// These filters, also matching transactions that touch `account`.
    pub fn include_account(self, account: [u8; 32]) -> (filters: SubscribeFilters)
        ensures
            filters.account_include@ == self.account_include@.push(account),
            filters == (SubscribeFilters { account_include: filters.account_include, ..self }),
    {
        let mut filters = self;
        filters.account_include.push(account);
        filters
    }

    /// These filters, rejecting transactions that touch `account`.
    pub fn exclude_account(self, account: [u8; 32]) -> (filters: SubscribeFilters)
        ensures
            filters.account_exclude@ == self.account_exclude@.push(account),
            filters == (SubscribeFilters { account_exclude: filters.account_exclude, ..self }),
    {
        let mut filters = self;
        filters.account_exclude.push(account);
        filters
    }

    /// These filters, requiring transactions to touch `account`.
    pub fn require_account(self, account: [u8; 32]) -> (filters: SubscribeFilters)
        ensures
            filters.account_required@ == self.account_required@.push(account),
            filters == (SubscribeFilters { account_required: filters.account_required, ..self }),
    {
        let mut filters = self;
        filters.account_required.push(account);
        filters
    }

    /// These filters, asking for signatures and timing only.
    pub fn signatures_only(self) -> (filters: SubscribeFilters)
        ensures
            filters == (SubscribeFilters { signatures_only: true, ..self }),
    {
        let mut filters = self;
        filters.signatures_only = true;
        filters
    }

    /// These filters, asking for signatures and timing only where `signatures_only` holds.
    pub fn with_signatures_only(self, signatures_only: bool) -> (filters: SubscribeFilters)
        ensures
            filters == (SubscribeFilters { signatures_only, ..self }),
    {
        let mut filters = self;
        filters.signatures_only = signatures_only;
        filters
    }

    /// These filters, asking for the simulation result of each transaction.
    pub fn include_simulation(self) -> (filters: SubscribeFilters)
        ensures
            filters == (SubscribeFilters { include_simulation: true, ..self }),
    {
        let mut filters = self;
        filters.include_simulation = true;
        filters
    }

    /// These filters, asking for simulation results where `include_simulation` holds.
    pub fn with_include_simulation(self, include_simulation: bool) -> (filters: SubscribeFilters)
        ensures
            filters == (SubscribeFilters { include_simulation, ..self }),
    {
        let mut filters = self;
        filters.include_simulation = include_simulation;
        filters
    }
}

/// The fields of a SubscribeTransactions request, as the wire carries them.
#[derive(Debug, Clone, Default, PartialEq, Eq)]
pub struct SubscribeRequest {
    pub vote: i32,
    pub signature: Vec<u8>,
    pub account_include: Vec<Vec<u8>>,
    pub account_exclude: Vec<Vec<u8>>,
    pub account_required: Vec<Vec<u8>>,
    pub signatures_only: bool,
    pub include_simulation: bool,
}

/// The bytes of an optional signature: none where there is no signature.
pub open spec fn signature_bytes(signature: Option<[u8; 64]>) -> Seq<u8> {
    match signature {
        Some(s) => s@,
        None => Seq::empty(),
    }
}

/// Copies each 32-byte key into a byte vector of its own, in order.
fn keys_to_byte_vecs(keys: Vec<[u8; 32]>) -> (out: Vec<Vec<u8>>)
    ensures
        out.deep_view() == keys.deep_view(),
{
    let mut out: Vec<Vec<u8>> = Vec::new();
    let mut i: usize = 0;
    while i < keys.len()
        invariant
            i <= keys.len(),
            out.deep_view() == keys.deep_view().take(i as int),
        decreases keys.len() - i,
    {
        let bytes = vstd::slice::slice_to_vec(keys[i].as_slice());
        let ghost before = out.deep_view();
        proof {
            assert(bytes.deep_view() =~= keys@[i as int]@);
        }
        out.push(bytes);
        proof {
            assert(out.deep_view() =~= before.push(keys@[i as int]@));
            assert(keys.deep_view()[i as int] =~= keys@[i as int]@);
            assert(out.deep_view() =~= keys.deep_view().take(i + 1));
        }
        i = i + 1;
    }
    assert(keys.deep_view().take(keys.len() as int) == keys.deep_view());
    out
}

impl SubscribeRequest {
    /// The request that `filters` subscribe with: the vote filter's number, the
    /// signature bytes (empty without a signature), each account key as its own
    /// byte string in order, and both flags.
    pub fn from_filters(filters: SubscribeFilters) -> (request: SubscribeRequest)
        ensures
            request.vote == vote_filter_number(filters.vote),
            request.signature@ == signature_bytes(filters.signature),
            request.account_include.deep_view() == filters.account_include.deep_view(),
            request.account_exclude.deep_view() == filters.account_exclude.deep_view(),
            request.account_required.deep_view() == filters.account_required.deep_view(),
            request.signatures_only == filters.signatures_only,
            request.include_simulation == filters.include_simulation,
    {
        let signature = match filters.signature {
            Some(s) => vstd::slice::slice_to_vec(s.as_slice()),
            None => Vec::new(),
        };
        SubscribeRequest {
            vote: vote_filter_as_i32(filters.vote),
            signature,
            account_include: keys_to_byte_vecs(filters.account_include),
            account_exclude: keys_to_byte_vecs(filters.account_exclude),
            account_required: keys_to_byte_vecs(filters.account_required),
            signatures_only: filters.signatures_only,
            include_simulation: filters.include_simulation,
        }
    }
}


/// Each byte list holds, in order, the bytes of the key at the same position.
proof fn lemma_byte_lists_match(out: Vec<Vec<u8>>, keys: Vec<[u8; 32]>)
    requires
        out.deep_view() == keys.deep_view(),
    ensures
        out@.len() == keys@.len(),
        forall|i: int| 0 <= i < keys@.len() ==> #[trigger] out@[i]@ == keys@[i]@,
{
    assert(out.deep_view().len() == out@.len());
    assert(keys.deep_view().len() == keys@.len());
    assert forall|i: int| 0 <= i < keys@.len() implies #[trigger] out@[i]@ == keys@[i]@ by {
        assert(out.deep_view()[i] == out@[i].deep_view());
        assert(keys.deep_view()[i] == keys@[i].deep_view());
        assert(out@[i].deep_view() =~= out@[i]@);
        assert(keys@[i].deep_view() =~= keys@[i]@);
    }
}

/// Law of `SubscribeRequest::from_filters`: the request carries the vote's
/// number, the signature's 64 bytes in order (none without a signature), each
/// account key's 32 bytes in order and at its own position, and both flags.
pub proof fn law_request_carries_filters(filters: SubscribeFilters, request: SubscribeRequest)
    requires
        call_ensures(SubscribeRequest::from_filters, (filters,), request),
    ensures
        request.vote == vote_filter_number(filters.vote),
        filters.signature is Some ==> request.signature@ == filters.signature->0@,
        filters.signature is None ==> request.signature@.len() == 0,
        request.account_include@.len() == filters.account_include@.len(),
        forall|i: int| 0 <= i < filters.account_include@.len()
            ==> #[trigger] request.account_include@[i]@ == filters.account_include@[i]@,
        request.account_exclude@.len() == filters.account_exclude@.len(),
        forall|i: int| 0 <= i < filters.account_exclude@.len()
            ==> #[trigger] request.account_exclude@[i]@ == filters.account_exclude@[i]@,
        request.account_required@.len() == filters.account_required@.len(),
        forall|i: int| 0 <= i < filters.account_required@.len()
            ==> #[trigger] request.account_required@[i]@ == filters.account_required@[i]@,
        request.signatures_only == filters.signatures_only,
        request.include_simulation == filters.include_simulation,
{
    lemma_byte_lists_match(request.account_include, filters.account_include);
    lemma_byte_lists_match(request.account_exclude, filters.account_exclude);
    lemma_byte_lists_match(request.account_required, filters.account_required);
}

/// Law of default filters: the request they make asks for every vote (number
/// 0), no signature, no account lists, full payloads and no simulation.
pub proof fn law_default_filters_request(filters: SubscribeFilters, request: SubscribeRequest)
    requires
        call_ensures(<SubscribeFilters as Default>::default, (), filters),
        call_ensures(SubscribeRequest::from_filters, (filters,), request),
    ensures
        request.vote == 0,
        request.signature@.len() == 0,
        request.account_include@.len() == 0,
        request.account_exclude@.len() == 0,
        request.account_required@.len() == 0,
        !request.signatures_only,
        !request.include_simulation,
{
    law_request_carries_filters(filters, request);
}


/// Law of default filters: every vote (number 0), no signature, no account
/// lists, full payloads, no simulation.
pub proof fn law_default_filters(filters: SubscribeFilters)
    requires
        call_ensures(<SubscribeFilters as Default>::default, (), filters),
    ensures
        vote_filter_number(filters.vote) == 0,
        filters.signature is None,
        filters.account_include@.len() == 0,
        filters.account_exclude@.len() == 0,
        filters.account_required@.len() == 0,
        !filters.signatures_only,
        !filters.include_simulation,
{
}

/// Law of the filter builders: each one changes its own field as it says, the
/// account builders appending the key at the end of their list, and leaves
/// every other field as it was.
pub proof fn law_filter_builders(
    f: SubscribeFilters,
    vote: VoteFilter,
    signature: [u8; 64],
    account: [u8; 32],
    flag: bool,
    built: Seq<SubscribeFilters>,
)
    requires
        built.len() == 9,
        call_ensures(SubscribeFilters::vote, (f, vote), built[0]),
        call_ensures(SubscribeFilters::signature, (f, signature), built[1]),
        call_ensures(SubscribeFilters::include_account, (f, account), built[2]),
        call_ensures(SubscribeFilters::exclude_account, (f, account), built[3]),
        call_ensures(SubscribeFilters::require_account, (f, account), built[4]),
        call_ensures(SubscribeFilters::signatures_only, (f,), built[5]),
        call_ensures(SubscribeFilters::with_signatures_only, (f, flag), built[6]),
        call_ensures(SubscribeFilters::include_simulation, (f,), built[7]),
        call_ensures(SubscribeFilters::with_include_simulation, (f, flag), built[8]),
    ensures
        built[0].vote == vote,
        built[1].signature == Some(signature),
        built[2].account_include@ == f.account_include@.push(account),
        built[3].account_exclude@ == f.account_exclude@.push(account),
        built[4].account_required@ == f.account_required@.push(account),
        built[5].signatures_only,
        built[6].signatures_only == flag,
        built[7].include_simulation,
        built[8].include_simulation == flag,
        forall|k: int| 0 <= k < 9 && k != 0 ==> #[trigger] built[k].vote == f.vote,
        forall|k: int| 0 <= k < 9 && k != 1 ==> #[trigger] built[k].signature == f.signature,
        forall|k: int| 0 <= k < 9 && k != 2 ==> #[trigger] built[k].account_include == f.account_include,
        forall|k: int| 0 <= k < 9 && k != 3 ==> #[trigger] built[k].account_exclude == f.account_exclude,
        forall|k: int| 0 <= k < 9 && k != 4 ==> #[trigger] built[k].account_required == f.account_required,
        forall|k: int| 0 <= k < 9 && k != 5 && k != 6 ==> #[trigger] built[k].signatures_only == f.signatures_only,
        forall|k: int| 0 <= k < 9 && k != 7 && k != 8 ==> #[trigger] built[k].include_simulation
            == f.include_simulation,
{
}

} // verus!
