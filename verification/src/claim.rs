use vstd::prelude::*;
use vstd::string::*;
use vstd::utf8::encode_utf8;

use crate::access::is_owner;
use crate::hashing::{hex32_error, hex_decode_32, HexError};
use crate::merkle::{spec_verify, verify_proof, VerifyError};

verus! {

/// The claim program's errors.
#[derive(Clone, Debug, PartialEq, Eq)]
pub enum ContractError {
    /// A proof element or the stored root is malformed hex.
    Hex(HexError),
    /// The caller is not the owner, or no root is configured.
    Unauthorized,
    /// Reserved: a malformed address or field.
    InvalidInput,
    /// The account already holds a claim record.
    Claimed,
    /// Reserved: a digest of an unexpected size.
    WrongLength,
    /// The program's token balance is zero at claim time.
    Insufficient,
    /// The folded proof does not reproduce the stored root.
    VerificationFailed,
    /// Reserved, never produced.
    AmountIsNotAvailable,
    /// Reserved, never produced.
    VestingScheduleError(String),
    /// Reserved, never produced.
    VestingScheduleAmountError,
}

/// The claim program's error for a failed membership check.
pub open spec fn from_verify_error(e: VerifyError) -> ContractError {
    match e {
        VerifyError::Hex(h) => ContractError::Hex(h),
        VerifyError::VerificationFailed => ContractError::VerificationFailed,
    }
}

fn verify_error_into(e: VerifyError) -> (r: ContractError)
    ensures
        r == from_verify_error(e),
{
    match e {
        VerifyError::Hex(h) => ContractError::Hex(h),
        VerifyError::VerificationFailed => ContractError::VerificationFailed,
    }
}

/// The main parameters of the claim program.
#[derive(Clone, Debug, PartialEq, Eq)]
pub struct Config {
    /// The owner's identity in canonical form; only it may change the
    /// configuration, rotate the root, or sweep the balance.
    pub owner: Vec<u8>,
    /// The fungible-token contract the claims are paid from.
    pub cw20_token_address: String,
    /// The fixed amount every successful claim transfers.
    pub claim_amount: u128,
}

/// The single current Merkle root, as a hex text of a 32-byte value, or
/// empty (claiming disabled).
#[derive(Clone, Debug, PartialEq, Eq)]
pub struct MerkleRoot {
    pub root: String,
}

/// One account's claim record: the amount it claimed and when. A zeroed
/// record stands for "never claimed".
#[derive(Clone, Copy, Debug, PartialEq, Eq, Structural)]
pub struct ClaimInfo {
    pub amount: u128,
    pub claimed_timestamp: u64,
}

/// The mapping that a sequence of keyed records denotes.
pub open spec fn records_map(s: Seq<(String, ClaimInfo)>) -> Map<Seq<char>, ClaimInfo>
    decreases s.len(),
{
    if s.len() == 0 {
        Map::empty()
    } else {
        records_map(s.drop_last()).insert(s.last().0@, s.last().1)
    }
}

pub open spec fn unique_keys(s: Seq<(String, ClaimInfo)>) -> bool {
    forall|i: int, j: int| 0 <= i < j < s.len() ==> s[i].0@ != s[j].0@
}

/// The per-account claim records, one record per account at most.
pub struct ClaimRegistry {
    records: Vec<(String, ClaimInfo)>,
}

impl View for ClaimRegistry {
    type V = Map<Seq<char>, ClaimInfo>;

    closed spec fn view(&self) -> Map<Seq<char>, ClaimInfo> {
        records_map(self.records@)
    }
}

impl ClaimRegistry {
    pub closed spec fn wf(&self) -> bool {
        unique_keys(self.records@)
    }

    proof fn lemma_contains(s: Seq<(String, ClaimInfo)>, k: Seq<char>)
        ensures
            records_map(s).contains_key(k) <==> exists|i: int| 0 <= i < s.len() && s[i].0@ == k,
        decreases s.len(),
    {
        if s.len() > 0 {
            Self::lemma_contains(s.drop_last(), k);
            if s.last().0@ == k {
                assert(s[s.len() - 1].0@ == k);
            } else {
                if records_map(s).contains_key(k) {
                    let i = choose|i: int|
                        0 <= i < s.drop_last().len() && s.drop_last()[i].0@ == k;
                    assert(s[i].0@ == k);
                }
                if exists|i: int| 0 <= i < s.len() && s[i].0@ == k {
                    let i = choose|i: int| 0 <= i < s.len() && s[i].0@ == k;
                    assert(i < s.len() - 1);
                    assert(s.drop_last()[i].0@ == k);
                }
            }
        }
    }

    proof fn lemma_get_at(s: Seq<(String, ClaimInfo)>, i: int)
        requires
            unique_keys(s),
            0 <= i < s.len(),
        ensures
            records_map(s).contains_key(s[i].0@),
            records_map(s)[s[i].0@] == s[i].1,
        decreases s.len(),
    {
        if i == s.len() - 1 {
        } else {
            assert(unique_keys(s.drop_last()));
            Self::lemma_get_at(s.drop_last(), i);
            assert(s.drop_last()[i] == s[i]);
            assert(s.last().0@ != s[i].0@);
        }
    }

    pub fn new() -> (r: ClaimRegistry)
        ensures
            r.wf(),
            r@ == Map::<Seq<char>, ClaimInfo>::empty(),
    {
        ClaimRegistry { records: Vec::new() }
    }

    /// Look an account's record up.
    pub fn get(&self, account: &String) -> (r: Option<ClaimInfo>)
        requires
            self.wf(),
        ensures
            match r {
                Some(info) => self@.contains_key(account@) && self@[account@] == info,
                None => !self@.contains_key(account@),
            },
    {
        let mut i: usize = 0;
        while i < self.records.len()
            invariant
                self.wf(),
                0 <= i <= self.records@.len(),
                forall|j: int| 0 <= j < i ==> self.records@[j].0@ != account@,
            decreases self.records@.len() - i,
        {
            if self.records[i].0 == *account {
                proof {
                    Self::lemma_get_at(self.records@, i as int);
                }
                return Some(self.records[i].1);
            }
            i += 1;
        }
        proof {
            Self::lemma_contains(self.records@, account@);
        }
        None
    }

    /// The records as plain entries, for a host that stores them; their
    /// keys are pairwise distinct.
    pub fn entries(&self) -> (r: &Vec<(String, ClaimInfo)>)
        requires
            self.wf(),
        ensures
            unique_keys(r@),
            records_map(r@) == self@,
    {
        &self.records
    }

    /// Rebuild the registry from stored entries; entries with a repeated
    /// key are refused.
    pub fn from_entries(entries: Vec<(String, ClaimInfo)>) -> (r: Option<ClaimRegistry>)
        ensures
            match r {
                Some(reg) => {
                    &&& unique_keys(entries@)
                    &&& reg.wf()
                    &&& reg@ == records_map(entries@)
                },
                None => !unique_keys(entries@),
            },
    {
        let mut reg = ClaimRegistry::new();
        let mut i: usize = 0;
        proof {
            assert(entries@.take(0) =~= Seq::<(String, ClaimInfo)>::empty());
        }
        while i < entries.len()
            invariant
                0 <= i <= entries@.len(),
                reg.wf(),
                reg@ == records_map(entries@.take(i as int)),
                unique_keys(entries@.take(i as int)),
                forall|j: int, k: int|
                    0 <= j < k < i ==> entries@[j].0@ != entries@[k].0@,
            decreases entries@.len() - i,
        {
            let entry = &entries[i];
            if reg.get(&entry.0).is_some() {
                proof {
                    Self::lemma_contains(entries@.take(i as int), entries@[i as int].0@);
                    let j = choose|j: int|
                        0 <= j < entries@.take(i as int).len() && entries@.take(i as int)[j].0@
                            == entries@[i as int].0@;
                    assert(entries@[j].0@ == entries@[i as int].0@);
                }
                return None;
            }
            proof {
                Self::lemma_contains(entries@.take(i as int), entries@[i as int].0@);
            }
            let key = entry.0.clone();
            let info = entry.1;
            reg.insert(key, info);
            proof {
                assert(entries@.take(i + 1).drop_last() =~= entries@.take(i as int));
                assert(entries@.take(i + 1).last() == entries@[i as int]);
                assert forall|j: int, k: int| 0 <= j < k < i + 1 implies entries@[j].0@
                    != entries@[k].0@ by {
                    if k == i {
                        assert(entries@.take(i as int)[j] == entries@[j]);
                    }
                }
            }
            i += 1;
        }
        proof {
            assert(entries@.take(entries@.len() as int) =~= entries@);
        }
        Some(reg)
    }

    /// Record an account's claim; the account must not hold a record yet.
    pub fn insert(&mut self, account: String, info: ClaimInfo)
        requires
            old(self).wf(),
            !old(self)@.contains_key(account@),
        ensures
            final(self).wf(),
            final(self)@ == old(self)@.insert(account@, info),
    {
        let ghost s0 = self.records@;
        let ghost key = account@;
        proof {
            Self::lemma_contains(s0, key);
        }
        self.records.push((account, info));
        proof {
            assert(self.records@.drop_last() =~= s0);
            assert(self.records@.last().0@ == key && self.records@.last().1 == info);
            assert(unique_keys(self.records@)) by {
                assert forall|i: int, j: int|
                    0 <= i < j < self.records@.len() implies self.records@[i].0@
                    != self.records@[j].0@ by {
                    if j < s0.len() {
                        assert(s0[i].0@ != s0[j].0@);
                    } else {
                        assert(!(exists|m: int| 0 <= m < s0.len() && s0[m].0@ == key));
                        assert(self.records@[i] == s0[i]);
                    }
                }
            }
        }
    }
}

/// The whole durable state of one claim program instance.
pub struct ClaimState {
    pub config: Config,
    pub merkle_root: Option<MerkleRoot>,
    pub claims: ClaimRegistry,
}

impl ClaimState {
    pub open spec fn wf(&self) -> bool {
        self.claims.wf()
    }
}

/// The stored root's text, if one was ever registered.
pub open spec fn root_text(s: ClaimState) -> Option<Seq<char>> {
    match s.merkle_root {
        Some(m) => Some(m.root@),
        None => None,
    }
}

/// The fungible-token transfer instruction a successful claim or sweep
/// enqueues; the host executes it within the same atomic transaction.
#[derive(Clone, Debug, PartialEq, Eq)]
pub struct TransferMsg {
    pub recipient: String,
    pub amount: u128,
}

/// The parameters the claim program is created with.
#[derive(Clone, Debug, PartialEq, Eq)]
pub struct InstantiateMsg {
    pub cw20_token_address: String,
    pub claim_amount: u128,
}

/// The commands of the claim program. Identities arrive in the form the
/// program stores: the caller's canonical identity accompanies the call
/// (see `CallContext`), and a new owner arrives already canonical.
pub enum ExecuteMsg {
    UpdateConfig {
        owner: Option<Vec<u8>>,
        cw20_token_address: Option<String>,
        claim_amount: Option<u128>,
    },
    RegisterMerkleRoot { root: Option<String> },
    Claim { merkle_proof: Vec<String> },
    WithdrawAll,
}

/// The read-only requests of the claim program.
pub enum QueryMsg {
    Config,
    MerkleRoot,
    ClaimInfo { address: String },
}

/// What the host supplies about the message being processed: the caller
/// in human and canonical form, the program's fungible-token balance as
/// the host reports it, and the current block time.
pub struct CallContext {
    pub sender: String,
    pub sender_canonical: Vec<u8>,
    pub balance: u128,
    pub block_time: u64,
}

/// The claim program's configuration, as a query reports it.
#[derive(Clone, Debug, PartialEq, Eq)]
pub struct ConfigResponse {
    pub owner: Vec<u8>,
    pub cw20_token_address: String,
    pub claim_amount: u128,
}

#[derive(Clone, Debug, PartialEq, Eq)]
pub struct MerkleRootResponse {
    pub root: String,
}

/// Reserved response shape; no reachable query fills it.
#[derive(Clone, Debug, PartialEq, Eq)]
pub struct ClaimResponse {
    pub amount: u128,
    pub is_claim: bool,
    pub is_reward: bool,
}

/// A migration message; migration is a reserved no-op.
#[derive(Clone, Debug, PartialEq, Eq)]
pub struct MigrateMsg {}

/// The answers of the read-only queries.
pub enum QueryAnswer {
    Config(ConfigResponse),
    MerkleRoot(MerkleRootResponse),
    ClaimInfo(ClaimInfo),
}

/// Create the program's state: the caller becomes the owner, no root is
/// configured, and no account holds a claim record.
pub fn instantiate(sender_canonical: Vec<u8>, msg: InstantiateMsg) -> (s: ClaimState)
    ensures
        s.wf(),
        s.config.owner == sender_canonical,
        s.config.cw20_token_address == msg.cw20_token_address,
        s.config.claim_amount == msg.claim_amount,
        s.merkle_root is None,
        s.claims@ == Map::<Seq<char>, ClaimInfo>::empty(),
{
    ClaimState {
        config: Config {
            owner: sender_canonical,
            cw20_token_address: msg.cw20_token_address,
            claim_amount: msg.claim_amount,
        },
        merkle_root: None,
        claims: ClaimRegistry::new(),
    }
}

/// What `execute_update_config` promises: only the owner may change the
/// configuration, and each field is replaced exactly when its new value
/// is present.
pub open spec fn update_config_post(
    pre: ClaimState,
    post: ClaimState,
    sender: Seq<u8>,
    owner: Option<Vec<u8>>,
    cw20_token_address: Option<String>,
    claim_amount: Option<u128>,
    r: Result<(), ContractError>,
) -> bool {
    &&& post.merkle_root == pre.merkle_root
    &&& post.claims == pre.claims
    &&& if sender != pre.config.owner@ {
        r == Err::<(), ContractError>(ContractError::Unauthorized) && post.config == pre.config
    } else {
        &&& r == Ok::<(), ContractError>(())
        &&& post.config.owner == (match owner {
            Some(o) => o,
            None => pre.config.owner,
        })
        &&& post.config.cw20_token_address == (match cw20_token_address {
            Some(t) => t,
            None => pre.config.cw20_token_address,
        })
        &&& post.config.claim_amount == (match claim_amount {
            Some(a) => a,
            None => pre.config.claim_amount,
        })
    }
}

/// Replace any of the owner, the token address and the claim amount;
/// owner-only.
pub fn execute_update_config(
    state: &mut ClaimState,
    sender_canonical: &Vec<u8>,
    owner: Option<Vec<u8>>,
    cw20_token_address: Option<String>,
    claim_amount: Option<u128>,
) -> (r: Result<(), ContractError>)
    ensures
        update_config_post(
            *old(state),
            *final(state),
            sender_canonical@,
            owner,
            cw20_token_address,
            claim_amount,
            r,
        ),
{
    if !is_owner(sender_canonical, &state.config.owner) {
        return Err(ContractError::Unauthorized);
    }
    if let Some(o) = owner {
        state.config.owner = o;
    }
    if let Some(t) = cw20_token_address {
        state.config.cw20_token_address = t;
    }
    if let Some(a) = claim_amount {
        state.config.claim_amount = a;
    }
    Ok(())
}

/// What `execute_register_merkle_root` promises: only the owner may
/// rotate the root; a missing root clears it to the empty text (claiming
/// disabled); a present root is stored exactly when it is a well-formed
/// 64-digit hex text.
pub open spec fn register_root_post(
    pre: ClaimState,
    post: ClaimState,
    sender: Seq<u8>,
    root: Option<String>,
    r: Result<(), ContractError>,
) -> bool {
    &&& post.config == pre.config
    &&& post.claims == pre.claims
    &&& if sender != pre.config.owner@ {
        r == Err::<(), ContractError>(ContractError::Unauthorized) && post.merkle_root
            == pre.merkle_root
    } else {
        match root {
            None => {
                &&& r == Ok::<(), ContractError>(())
                &&& post.merkle_root is Some
                &&& post.merkle_root->Some_0.root@ == Seq::<char>::empty()
            },
            Some(text) => {
                if hex32_error(encode_utf8(text@)) is None {
                    &&& r == Ok::<(), ContractError>(())
                    &&& post.merkle_root == Some(MerkleRoot { root: text })
                } else {
                    &&& r == Err::<(), ContractError>(
                        ContractError::Hex(hex32_error(encode_utf8(text@))->Some_0),
                    )
                    &&& post.merkle_root == pre.merkle_root
                }
            },
        }
    }
}

/// Rotate, set or clear the stored Merkle root; owner-only. A new root
/// must decode to exactly 32 bytes before it is stored; clearing stores
/// the empty text, against which no proof can verify.
pub fn execute_register_merkle_root(
    state: &mut ClaimState,
    sender_canonical: &Vec<u8>,
    root: Option<String>,
) -> (r: Result<(), ContractError>)
    ensures
        register_root_post(*old(state), *final(state), sender_canonical@, root, r),
{
    if !is_owner(sender_canonical, &state.config.owner) {
        return Err(ContractError::Unauthorized);
    }
    match root {
        None => {
            state.merkle_root = Some(MerkleRoot { root: String::new() });
            Ok(())
        },
        Some(text) => {
            match hex_decode_32(text.as_str()) {
                Ok(_) => {
                    state.merkle_root = Some(MerkleRoot { root: text });
                    Ok(())
                },
                Err(e) => Err(ContractError::Hex(e)),
            }
        },
    }
}

/// The reason a claim fails, if it does: the checks run in this order —
/// a root must be configured, the membership proof must verify against
/// it, the program's balance must be nonzero, and the account must not
/// have claimed before.
pub open spec fn claim_error(
    root: Option<Seq<char>>,
    claims: Map<Seq<char>, ClaimInfo>,
    sender: Seq<char>,
    path: Seq<Seq<char>>,
    balance: u128,
) -> Option<ContractError> {
    if root is None {
        Some(ContractError::Unauthorized)
    } else if spec_verify(sender, path, root->Some_0) is Some {
        Some(from_verify_error(spec_verify(sender, path, root->Some_0)->Some_0))
    } else if balance == 0 {
        Some(ContractError::Insufficient)
    } else if claims.contains_key(sender) {
        Some(ContractError::Claimed)
    } else {
        None
    }
}

/// What `claim` promises: the configuration and the root never change; a
/// failing claim leaves the records as they were and reports exactly the
/// reason `claim_error` gives; a successful claim transfers the fixed
/// amount to the caller and records it with the block time.
pub open spec fn claim_post(
    pre: ClaimState,
    post: ClaimState,
    sender: Seq<char>,
    path: Seq<Seq<char>>,
    balance: u128,
    block_time: u64,
    r: Result<TransferMsg, ContractError>,
) -> bool {
    &&& post.config == pre.config
    &&& post.merkle_root == pre.merkle_root
    &&& match r {
        Ok(msg) => {
            &&& claim_error(root_text(pre), pre.claims@, sender, path, balance) is None
            &&& msg.recipient@ == sender
            &&& msg.amount == pre.config.claim_amount
            &&& post.claims@ == pre.claims@.insert(
                sender,
                ClaimInfo { amount: pre.config.claim_amount, claimed_timestamp: block_time },
            )
        },
        Err(e) => {
            &&& Some(e) == claim_error(root_text(pre), pre.claims@, sender, path, balance)
            &&& post.claims@ == pre.claims@
        },
    }
}

/// Claim the fixed amount once: verify the caller's Merkle membership
/// proof against the stored root, and, the program being funded and the
/// account unclaimed, enqueue the transfer and record the claim.
pub fn claim(
    state: &mut ClaimState,
    sender: &String,
    merkle_proof: &Vec<String>,
    balance: u128,
    block_time: u64,
) -> (r: Result<TransferMsg, ContractError>)
    requires
        old(state).wf(),
    ensures
        final(state).wf(),
        claim_post(
            *old(state),
            *final(state),
            sender@,
            merkle_proof.deep_view(),
            balance,
            block_time,
            r,
        ),
{
    let root: String = match &state.merkle_root {
        None => {
            return Err(ContractError::Unauthorized);
        },
        Some(m) => m.root.clone(),
    };
    match verify_proof(sender.as_str(), merkle_proof, root.as_str()) {
        Err(e) => {
            return Err(verify_error_into(e));
        },
        Ok(()) => {},
    }
    if balance == 0 {
        return Err(ContractError::Insufficient);
    }
    match state.claims.get(sender) {
        Some(_) => Err(ContractError::Claimed),
        None => {
            let info = ClaimInfo {
                amount: state.config.claim_amount,
                claimed_timestamp: block_time,
            };
            state.claims.insert(sender.clone(), info);
            Ok(TransferMsg { recipient: sender.clone(), amount: state.config.claim_amount })
        },
    }
}

/// One claim per account, ever: once the records hold the account, a
/// further claim never succeeds, and fails with `Claimed` whenever its
/// proof verifies against the configured root and the balance is
/// nonzero.
pub proof fn lemma_claim_at_most_once(
    root: Option<Seq<char>>,
    claims: Map<Seq<char>, ClaimInfo>,
    sender: Seq<char>,
    path: Seq<Seq<char>>,
    balance: u128,
)
    requires
        claims.contains_key(sender),
    ensures
        claim_error(root, claims, sender, path, balance) is Some,
        (root is Some && spec_verify(sender, path, root->Some_0) is None && balance != 0)
            ==> claim_error(root, claims, sender, path, balance) == Some(ContractError::Claimed),
{
}

/// A successful claim is terminal: against the records it leaves behind,
/// the same account's next claim fails, with `Claimed` whenever its
/// proof verifies and the balance is nonzero.
pub proof fn lemma_second_claim_rejected(
    root: Option<Seq<char>>,
    claims: Map<Seq<char>, ClaimInfo>,
    sender: Seq<char>,
    info: ClaimInfo,
    path: Seq<Seq<char>>,
    balance: u128,
)
    ensures
        claim_error(root, claims.insert(sender, info), sender, path, balance) is Some,
        (root is Some && spec_verify(sender, path, root->Some_0) is None && balance != 0)
            ==> claim_error(root, claims.insert(sender, info), sender, path, balance) == Some(
            ContractError::Claimed,
        ),
{
    lemma_claim_at_most_once(root, claims.insert(sender, info), sender, path, balance);
}

/// What `try_withdraw_all` promises: only the owner may sweep, and the
/// sweep transfers the program's whole reported balance to the caller.
pub open spec fn withdraw_post(
    s: ClaimState,
    sender: Seq<char>,
    sender_canonical: Seq<u8>,
    balance: u128,
    r: Result<TransferMsg, ContractError>,
) -> bool {
    if sender_canonical != s.config.owner@ {
        r == Err::<TransferMsg, ContractError>(ContractError::Unauthorized)
    } else {
        &&& r is Ok
        &&& r->Ok_0.recipient@ == sender
        &&& r->Ok_0.amount == balance
    }
}

/// Sweep the program's whole fungible-token balance to the caller;
/// owner-only, unconditional and irreversible once authorized.
pub fn try_withdraw_all(
    state: &ClaimState,
    sender: &String,
    sender_canonical: &Vec<u8>,
    balance: u128,
) -> (r: Result<TransferMsg, ContractError>)
    ensures
        withdraw_post(*state, sender@, sender_canonical@, balance, r),
{
    if !is_owner(sender_canonical, &state.config.owner) {
        return Err(ContractError::Unauthorized);
    }
    Ok(TransferMsg { recipient: sender.clone(), amount: balance })
}

/// Run one command against the state; at most one transfer instruction
/// comes back for the host to enqueue.
pub fn execute(state: &mut ClaimState, ctx: &CallContext, msg: ExecuteMsg) -> (r: Result<
    Option<TransferMsg>,
    ContractError,
>)
    requires
        old(state).wf(),
    ensures
        final(state).wf(),
        match msg {
            ExecuteMsg::UpdateConfig { owner, cw20_token_address, claim_amount } => {
                &&& r is Ok ==> r->Ok_0 is None
                &&& update_config_post(
                    *old(state),
                    *final(state),
                    ctx.sender_canonical@,
                    owner,
                    cw20_token_address,
                    claim_amount,
                    if r is Ok {
                        Ok(())
                    } else {
                        Err(r->Err_0)
                    },
                )
            },
            ExecuteMsg::RegisterMerkleRoot { root } => {
                &&& r is Ok ==> r->Ok_0 is None
                &&& register_root_post(
                    *old(state),
                    *final(state),
                    ctx.sender_canonical@,
                    root,
                    if r is Ok {
                        Ok(())
                    } else {
                        Err(r->Err_0)
                    },
                )
            },
            ExecuteMsg::Claim { merkle_proof } => {
                &&& r is Ok ==> r->Ok_0 is Some
                &&& claim_post(
                    *old(state),
                    *final(state),
                    ctx.sender@,
                    merkle_proof.deep_view(),
                    ctx.balance,
                    ctx.block_time,
                    if r is Ok {
                        Ok(r->Ok_0->Some_0)
                    } else {
                        Err(r->Err_0)
                    },
                )
            },
            ExecuteMsg::WithdrawAll => {
                &&& *final(state) == *old(state)
                &&& r is Ok ==> r->Ok_0 is Some
                &&& withdraw_post(
                    *old(state),
                    ctx.sender@,
                    ctx.sender_canonical@,
                    ctx.balance,
                    if r is Ok {
                        Ok(r->Ok_0->Some_0)
                    } else {
                        Err(r->Err_0)
                    },
                )
            },
        },
{
    match msg {
        ExecuteMsg::UpdateConfig { owner, cw20_token_address, claim_amount } => {
            match execute_update_config(
                state,
                &ctx.sender_canonical,
                owner,
                cw20_token_address,
                claim_amount,
            ) {
                Ok(()) => Ok(None),
                Err(e) => Err(e),
            }
        },
        ExecuteMsg::RegisterMerkleRoot { root } => {
            match execute_register_merkle_root(state, &ctx.sender_canonical, root) {
                Ok(()) => Ok(None),
                Err(e) => Err(e),
            }
        },
        ExecuteMsg::Claim { merkle_proof } => {
            match claim(state, &ctx.sender, &merkle_proof, ctx.balance, ctx.block_time) {
                Ok(m) => Ok(Some(m)),
                Err(e) => Err(e),
            }
        },
        ExecuteMsg::WithdrawAll => {
            match try_withdraw_all(state, &ctx.sender, &ctx.sender_canonical, ctx.balance) {
                Ok(m) => Ok(Some(m)),
                Err(e) => Err(e),
            }
        },
    }
}

/// A byte-for-byte copy of a canonical identity.
fn copy_bytes(v: &Vec<u8>) -> (r: Vec<u8>)
    ensures
        r@ == v@,
{
    let mut out: Vec<u8> = Vec::new();
    out.extend_from_slice(v.as_slice());
    proof {
        assert(out@ =~= v@);
    }
    out
}

/// Report the configuration.
pub fn query_config(state: &ClaimState) -> (r: ConfigResponse)
    ensures
        r.owner@ == state.config.owner@,
        r.cw20_token_address@ == state.config.cw20_token_address@,
        r.claim_amount == state.config.claim_amount,
{
    ConfigResponse {
        owner: copy_bytes(&state.config.owner),
        cw20_token_address: state.config.cw20_token_address.clone(),
        claim_amount: state.config.claim_amount,
    }
}

/// Report the stored root; nothing comes back while none is registered.
pub fn query_merkle_root(state: &ClaimState) -> (r: Option<MerkleRootResponse>)
    ensures
        match r {
            Some(resp) => state.merkle_root is Some && resp.root@ == state.merkle_root->Some_0.root@,
            None => state.merkle_root is None,
        },
{
    match &state.merkle_root {
        Some(m) => Some(MerkleRootResponse { root: m.root.clone() }),
        None => None,
    }
}

/// Report an account's claim record; an account that never claimed reads
/// as a zeroed record.
pub fn query_claim_info(state: &ClaimState, address: &String) -> (r: ClaimInfo)
    requires
        state.wf(),
    ensures
        state.claims@.contains_key(address@) ==> r == state.claims@[address@],
        !state.claims@.contains_key(address@) ==> r == (ClaimInfo {
            amount: 0,
            claimed_timestamp: 0,
        }),
{
    match state.claims.get(address) {
        Some(info) => info,
        None => ClaimInfo { amount: 0, claimed_timestamp: 0 },
    }
}

/// Answer one read-only request; only an unregistered root has no
/// answer.
pub fn query(state: &ClaimState, msg: QueryMsg) -> (r: Option<QueryAnswer>)
    requires
        state.wf(),
    ensures
        match msg {
            QueryMsg::Config => r matches Some(QueryAnswer::Config(c)) && c.owner@
                == state.config.owner@ && c.cw20_token_address@ == state.config.cw20_token_address@
                && c.claim_amount == state.config.claim_amount,
            QueryMsg::MerkleRoot => match r {
                Some(QueryAnswer::MerkleRoot(m)) => state.merkle_root is Some && m.root@
                    == state.merkle_root->Some_0.root@,
                None => state.merkle_root is None,
                _ => false,
            },
            QueryMsg::ClaimInfo { address } => r matches Some(QueryAnswer::ClaimInfo(info))
                && info == (if state.claims@.contains_key(address@) {
                state.claims@[address@]
            } else {
                ClaimInfo { amount: 0, claimed_timestamp: 0 }
            }),
        },
{
    match msg {
        QueryMsg::Config => Some(QueryAnswer::Config(query_config(state))),
        QueryMsg::MerkleRoot => {
            match query_merkle_root(state) {
                Some(resp) => Some(QueryAnswer::MerkleRoot(resp)),
                None => None,
            }
        },
        QueryMsg::ClaimInfo { address } => {
            Some(QueryAnswer::ClaimInfo(query_claim_info(state, &address)))
        },
    }
}

/// Migration is reserved and changes nothing.
pub fn migrate(_msg: MigrateMsg) -> (r: Result<(), ContractError>)
    ensures
        r == Ok::<(), ContractError>(()),
{
    Ok(())
}

} // verus!
