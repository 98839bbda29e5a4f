//! The template provider: which template the pool is given when, which templates are kept, and
//! how the pool's questions about them are answered.

use crate::block::read_block_hash;
use crate::hashing::same_hash;
use crate::rpc::{BitcoinRpcConfig, RpcClient};
use crate::template::{
    GetBlockTemplate, NewTemplate, RpcTemplate, SetNewPrevHash, SolvedBlock, SubmitSolution,
};
use crate::text::{decimal_text, labelled};
use std::collections::HashMap;
use vstd::prelude::*;

verus! {

broadcast use vstd::std_specs::hash::group_hash_axioms;

/// How many templates are kept.
pub const MAX_RETAINED_TEMPLATES: usize = 32;

/// Whether `id` is the least of the ids.
pub open spec fn is_least(ids: Set<u64>, id: u64) -> bool {
    ids.contains(id) && forall|other: u64| ids.contains(other) ==> id <= other
}

/// The ids of the templates, in no particular order.
fn ids_of(templates: &HashMap<u64, RpcTemplate>) -> (ids: Vec<u64>)
    ensures
        ids@.to_set() == templates@.dom(),
{
    let mut ids: Vec<u64> = Vec::new();
    for id in it: templates.keys()
        invariant
            it.seq().unref().to_set() == templates@.dom(),
            ids@ =~= it.seq().unref().take(it.index()),
            it.index() == it.seq().len() ==> ids@ =~= it.seq().unref(),
    {
        ids.push(*id);
    }
    ids
}

/// The least of the ids of the templates.
fn least_id(templates: &HashMap<u64, RpcTemplate>) -> (least: u64)
    requires
        templates@.dom().len() > 0,
    ensures
        is_least(templates@.dom(), least),
{
    let ids = ids_of(templates);
    proof {
        if ids@.len() == 0 {
            assert(templates@.dom() =~= Set::<u64>::empty());
        }
        assert(ids@.contains(ids@[0]));
    }
    let mut least = ids[0];
    let mut i: usize = 1;
    while i < ids.len()
        invariant
            1 <= i <= ids@.len(),
            ids@.to_set() == templates@.dom(),
            templates@.dom().contains(least),
            forall|k: int| 0 <= k < i ==> least <= ids@[k],
        decreases ids@.len() - i,
    {
        assert(ids@.contains(ids@[i as int]));
        if ids[i] < least {
            least = ids[i];
        }
        i = i + 1;
    }
    assert forall|other: u64| templates@.dom().contains(other) implies least <= other by {
        assert(ids@.contains(other));
    }
    least
}

/// The templates that are kept of those at hand: all of them, or all but the one with the least
/// id if they are too many.
pub open spec fn kept(templates: Map<u64, RpcTemplate>) -> Map<u64, RpcTemplate> {
    if templates.dom().len() <= MAX_RETAINED_TEMPLATES {
        templates
    } else {
        templates.remove(choose|id: u64| is_least(templates.dom(), id))
    }
}

/// Two least ids are the same.
proof fn lemma_least_is_unique(ids: Set<u64>, a: u64, b: u64)
    requires
        is_least(ids, a),
        is_least(ids, b),
    ensures
        a == b,
{
}

/// A finite set that is not empty has a least id.
proof fn lemma_least_exists(ids: Set<u64>)
    requires
        ids.finite(),
        ids.len() > 0,
    ensures
        exists|id: u64| is_least(ids, id),
    decreases ids.len(),
{
    let id = ids.choose();
    let rest = ids.remove(id);
    if rest.len() == 0 {
        assert forall|other: u64| ids.contains(other) implies id <= other by {
            if other != id {
                assert(rest.contains(other));
            }
        }
        assert(is_least(ids, id));
    } else {
        lemma_least_exists(rest);
        let least = choose|least: u64| is_least(rest, least);
        let either = if id < least {
            id
        } else {
            least
        };
        assert forall|other: u64| ids.contains(other) implies either <= other by {
            if other != id {
                assert(rest.contains(other));
            }
        }
        assert(is_least(ids, either));
    }
}

/// Publishing a template keeps no more than the limit, keeps every template as it was, and gives
/// up only templates whose ids are less than those of all that are kept.
pub proof fn newest_templates_are_kept(
    templates: Map<u64, RpcTemplate>,
    id: u64,
    template: RpcTemplate,
)
    requires
        templates.dom().finite(),
        templates.dom().len() <= MAX_RETAINED_TEMPLATES,
    ensures
        ({
            let all = templates.insert(id, template);
            let after = kept(all);
            &&& after.dom().finite()
            &&& after.dom().len() <= MAX_RETAINED_TEMPLATES
            &&& after.submap_of(all)
            &&& forall|gone: u64, there: u64|
                #![trigger all.dom().contains(gone), after.dom().contains(there)]
                all.dom().contains(gone) && !after.dom().contains(gone) && after.dom().contains(
                    there,
                ) ==> gone < there
        }),
{
    let all = templates.insert(id, template);
    if all.dom().len() > MAX_RETAINED_TEMPLATES {
        lemma_least_exists(all.dom());
    }
}

/// What a coinbase may need besides the outputs of a template.
#[derive(Clone, Copy, Debug)]
pub struct CoinbaseOutputConstraints {
    pub coinbase_output_max_additional_size: u32,
    pub coinbase_output_max_additional_sigops: u16,
}

/// What the pool asks the provider for.
#[derive(Clone, Debug)]
pub enum ProviderRequest {
    /// From now on a coinbase may need this much.
    Constraints(CoinbaseOutputConstraints),
    /// The transactions of a template are wanted.
    TransactionData { template_id: u64 },
    /// A template was solved.
    Solution(SubmitSolution),
    /// Any other message.
    Other,
}

/// The answer to a question for the transactions of a template.
#[derive(Clone, Debug)]
pub enum TransactionDataReply {
    Success { template_id: u64, transaction_list: Vec<Vec<u8>>, excess_data: Vec<u8> },
    Error { template_id: u64, error_code: String },
}

/// A [`TransactionDataReply`] with sequences in place of lists and texts.
pub ghost enum DataReply {
    Success { template_id: u64, transaction_list: Seq<Seq<u8>>, excess_data: Seq<u8> },
    Error { template_id: u64, error_code: Seq<char> },
}

impl View for TransactionDataReply {
    type V = DataReply;

    open spec fn view(&self) -> DataReply {
        match *self {
            TransactionDataReply::Success { template_id, transaction_list, excess_data } =>
                DataReply::Success {
                    template_id,
                    transaction_list: crate::template::all_bytes(transaction_list@),
                    excess_data: excess_data@,
                },
            TransactionDataReply::Error { template_id, error_code } => DataReply::Error {
                template_id,
                error_code: error_code@,
            },
        }
    }
}

/// Whether some transaction does not fit its field of a message.
pub open spec fn has_oversized(transactions: Seq<Seq<u8>>) -> bool {
    exists|k: int| 0 <= k < transactions.len() && (#[trigger] transactions[k]).len() > 0xff_ffff
}

/// The answer to a question for the transactions of a template. A template that is not kept is
/// stale if a newer one is, and unknown otherwise.
pub open spec fn data_reply(templates: Map<u64, RpcTemplate>, template_id: u64) -> Result<
    DataReply,
    Seq<char>,
> {
    if templates.contains_key(template_id) {
        let transactions = templates[template_id]@.transactions;
        if has_oversized(transactions) {
            Err("transaction is too large for SV2 B016M"@)
        } else if transactions.len() > 0xffff {
            Err("too many transactions for SV2 Seq064K"@)
        } else {
            Ok(
                DataReply::Success {
                    template_id,
                    transaction_list: transactions,
                    excess_data: Seq::empty(),
                },
            )
        }
    } else if exists|newer: u64| templates.contains_key(newer) && template_id < newer {
        Ok(DataReply::Error { template_id, error_code: "stale-template-id"@ })
    } else {
        Ok(DataReply::Error { template_id, error_code: "template-id-not-found"@ })
    }
}

/// Whether `result` is the answer, or the message, that `expected` says.
pub open spec fn same_reply(
    result: Result<TransactionDataReply, String>,
    expected: Result<DataReply, Seq<char>>,
) -> bool {
    match result {
        Ok(reply) => expected == Ok::<DataReply, Seq<char>>(reply@),
        Err(message) => expected == Err::<DataReply, Seq<char>>(message@),
    }
}

/// The block of a solution of one of the templates, or the message that tells why there is none.
pub open spec fn solution_outcome(
    templates: Map<u64, RpcTemplate>,
    solution: SubmitSolution,
) -> Result<crate::template::Solved, Seq<char>> {
    if templates.contains_key(solution.template_id) {
        crate::template::solved_block(templates[solution.template_id]@, solution)
    } else {
        Err(
            "solution references unknown template "@ + crate::text::decimal(
                solution.template_id as nat,
            ),
        )
    }
}

/// Whether `result` is the block, or the message, that `expected` says.
pub open spec fn same_block(
    result: Result<SolvedBlock, String>,
    expected: Result<crate::template::Solved, Seq<char>>,
) -> bool {
    match result {
        Ok(block) => expected == Ok::<crate::template::Solved, Seq<char>>(block@),
        Err(message) => expected == Err::<crate::template::Solved, Seq<char>>(message@),
    }
}

/// A template that was published, as far as the provider goes on with it.
#[derive(Clone, Debug)]
pub struct PublishedTemplate {
    pub prev_hash: [u8; 32],
    pub longpollid: Option<String>,
}

/// What is sent to the pool when a template is published.
#[derive(Clone, Debug)]
pub struct Publication {
    pub new_template: NewTemplate,
    /// Sent behind the template, if it is for a new chain tip.
    pub set_new_prev_hash: Option<SetNewPrevHash>,
    pub published: PublishedTemplate,
}

/// What the provider waits for.
#[derive(Clone, Debug)]
pub enum ProviderWait {
    /// A message of the pool.
    Request,
    /// A message of the pool, or the node's answer to a question for a template, whichever comes
    /// first.
    RequestOrTemplate { longpollid: Option<String> },
}

/// What to do about a message of the pool.
#[derive(Debug)]
pub enum RequestStep {
    /// Nothing.
    Ignore,
    /// Ask the node for a template at once and publish it as one for a new chain tip. `initial`
    /// tells whether the provider waited for constraints until now.
    Refresh { initial: bool },
    /// Answer, or report the message.
    Answer { reply: Result<TransactionDataReply, String> },
    /// Submit the block, or report the message.
    Submit { block: Result<SolvedBlock, String> },
}

/// What to do about the node's answer to a question for a template.
#[derive(Clone, Debug)]
pub enum PollStep {
    /// Ask again after so many seconds.
    Pause { seconds: u64 },
    /// Report the message.
    Report { message: String },
    /// Nothing, for the last template on this chain tip is too young.
    Throttled,
    /// Publish the template. `tip_changed` tells whether it is for a new chain tip.
    Publish { tip_changed: bool },
}

/// Nanoseconds of a second.
pub const NANOS_PER_SECOND: u128 = 1_000_000_000;

/// The state of the provider. Times are nanoseconds of a clock that never goes back.
#[derive(Debug)]
pub struct BitcoinRpcTemplateProvider {
    pub rpc: RpcClient,
    pub retry_seconds: u64,
    pub min_interval_seconds: u64,
    pub next_template_id: u64,
    pub templates: HashMap<u64, RpcTemplate>,
    pub constraints: Option<CoinbaseOutputConstraints>,
    /// The mark of the last template.
    pub longpollid: Option<String>,
    /// The chain tip of the last template.
    pub current_prev_hash: Option<[u8; 32]>,
    /// When the last template was published that was not for a new chain tip.
    pub last_non_tip_publish: Option<u128>,
}

/// The number after `id`; after the greatest comes zero.
pub open spec fn next_id(id: u64) -> u64 {
    if id == u64::MAX {
        0
    } else {
        (id + 1) as u64
    }
}

/// Why an answer of the node is not published: it gives no template, or one that cannot be
/// announced.
pub open spec fn publish_complaint(
    id: u64,
    gbt: GetBlockTemplate,
    additional: u32,
) -> Option<Seq<char>> {
    match crate::template::template_complaint(gbt, additional) {
        Some(message) => Some(message),
        None => crate::template::announcement_complaint(
            crate::template::built_template(id, gbt, additional),
        ),
    }
}

/// Whether all but the templates and their numbering is the same in two states.
pub open spec fn same_but_templates(
    a: BitcoinRpcTemplateProvider,
    b: BitcoinRpcTemplateProvider,
) -> bool {
    &&& a.rpc == b.rpc
    &&& a.retry_seconds == b.retry_seconds
    &&& a.min_interval_seconds == b.min_interval_seconds
    &&& a.constraints == b.constraints
    &&& a.longpollid == b.longpollid
    &&& a.current_prev_hash == b.current_prev_hash
    &&& a.last_non_tip_publish == b.last_non_tip_publish
}

/// A copy of a list of byte strings, unless one of them is too long for its field.
fn copy_transactions(transactions: &Vec<Vec<u8>>) -> (copy: Option<Vec<Vec<u8>>>)
    ensures
        match copy {
            Some(c) => !has_oversized(crate::template::all_bytes(transactions@))
                && crate::template::all_bytes(c@) == crate::template::all_bytes(transactions@),
            None => has_oversized(crate::template::all_bytes(transactions@)),
        },
{
    let ghost bytes = crate::template::all_bytes(transactions@);
    let mut copy: Vec<Vec<u8>> = Vec::new();
    let mut i: usize = 0;
    while i < transactions.len()
        invariant
            i <= transactions@.len(),
            bytes == crate::template::all_bytes(transactions@),
            copy@.len() == i,
            forall|k: int| 0 <= k < i ==> (#[trigger] copy@[k])@ == bytes[k],
            forall|k: int| 0 <= k < i ==> (#[trigger] bytes[k]).len() <= 0xff_ffff,
        decreases transactions@.len() - i,
    {
        let transaction = &transactions[i];
        assert(bytes[i as int] == transaction@);
        if transaction.len() > 0xff_ffff {
            return None;
        }
        copy.push(crate::template::copy_bytes(transaction));
        i = i + 1;
    }
    assert(crate::template::all_bytes(copy@) =~= bytes);
    Some(copy)
}

impl BitcoinRpcTemplateProvider {
    /// Whether the state is one that its own operations lead to: each template is consistent and
    /// kept under its own id, and there are not too many.
    pub open spec fn wf(self) -> bool {
        &&& self.templates@.dom().finite()
        &&& self.templates@.dom().len() <= MAX_RETAINED_TEMPLATES
        &&& forall|id: u64| #[trigger]
            self.templates@.contains_key(id) ==> self.templates@[id].id == id
                && self.templates@[id]@.wf()
    }

    /// A provider with the given settings. `cookie` is the text of the cookie file, if the
    /// settings name one.
    pub fn new(config: BitcoinRpcConfig, cookie: &str) -> (provider: Result<
        BitcoinRpcTemplateProvider,
        String,
    >)
        ensures
            match provider {
                Ok(p) => {
                    &&& p.wf()
                    &&& crate::rpc::has_credentials(
                        p.rpc,
                        crate::rpc::credentials(config, cookie@),
                    )
                    &&& p.rpc.url@ == config.url@
                    &&& p.rpc.timeout_seconds == if config.timeout_seconds
                        < crate::rpc::MIN_TIMEOUT_SECONDS {
                        crate::rpc::MIN_TIMEOUT_SECONDS
                    } else {
                        config.timeout_seconds
                    }
                    &&& p.rpc.next_request_id == 1
                    &&& p.retry_seconds == if config.retry_seconds < 1 {
                        1
                    } else {
                        config.retry_seconds
                    }
                    &&& p.min_interval_seconds == config.min_interval
                    &&& p.next_template_id == 1
                    &&& p.templates@ == Map::<u64, RpcTemplate>::empty()
                    &&& p.constraints is None
                    &&& p.longpollid is None
                    &&& p.current_prev_hash is None
                    &&& p.last_non_tip_publish is None
                },
                Err(message) => crate::rpc::credentials(config, cookie@)
                    == crate::rpc::CredentialOutcome::Err(message@),
            },
    {
        let rpc = match RpcClient::new(&config, cookie) {
            Ok(rpc) => rpc,
            Err(message) => return Err(message),
        };
        Ok(
            BitcoinRpcTemplateProvider {
                rpc,
                retry_seconds: if config.retry_seconds < 1 {
                    1
                } else {
                    config.retry_seconds
                },
                min_interval_seconds: config.min_interval as u64,
                next_template_id: 1,
                templates: HashMap::new(),
                constraints: None,
                longpollid: None,
                current_prev_hash: None,
                last_non_tip_publish: None,
            },
        )
    }

    /// What the provider waits for: without constraints no template can be made.
    pub fn wait(&self) -> (wait: ProviderWait)
        ensures
            match self.constraints {
                None => wait is Request,
                Some(_) => wait matches ProviderWait::RequestOrTemplate { longpollid }
                    && crate::rpc::optional_text(longpollid) == crate::rpc::optional_text(
                    self.longpollid,
                ),
            },
    {
        match self.constraints {
            None => ProviderWait::Request,
            Some(_) => ProviderWait::RequestOrTemplate { longpollid: self.longpollid.clone() },
        }
    }

    /// Takes a message of the pool. Until there are constraints, only these count.
    pub fn on_request(&mut self, request: ProviderRequest) -> (step: RequestStep)
        requires
            old(self).wf(),
        ensures
            final(self).wf(),
            match request {
                ProviderRequest::Constraints(constraints) => {
                    &&& step == (RequestStep::Refresh { initial: old(self).constraints is None })
                    &&& *final(self) == (BitcoinRpcTemplateProvider {
                        constraints: Some(constraints),
                        ..*old(self)
                    })
                },
                ProviderRequest::TransactionData { template_id } => {
                    &&& *final(self) == *old(self)
                    &&& if old(self).constraints is None {
                        step is Ignore
                    } else {
                        step matches RequestStep::Answer { reply } && same_reply(
                            reply,
                            data_reply(old(self).templates@, template_id),
                        )
                    }
                },
                ProviderRequest::Solution(solution) => {
                    &&& *final(self) == *old(self)
                    &&& if old(self).constraints is None {
                        step is Ignore
                    } else {
                        step matches RequestStep::Submit { block } && same_block(
                            block,
                            solution_outcome(old(self).templates@, solution),
                        )
                    }
                },
                ProviderRequest::Other => *final(self) == *old(self) && step is Ignore,
            },
    {
        match request {
            ProviderRequest::Constraints(constraints) => {
                let initial = self.constraints.is_none();
                self.constraints = Some(constraints);
                RequestStep::Refresh { initial }
            },
            ProviderRequest::TransactionData { template_id } => if self.constraints.is_none() {
                RequestStep::Ignore
            } else {
                RequestStep::Answer { reply: self.transaction_data(template_id) }
            },
            ProviderRequest::Solution(solution) => if self.constraints.is_none() {
                RequestStep::Ignore
            } else {
                RequestStep::Submit { block: self.solution_block(&solution) }
            },
            ProviderRequest::Other => RequestStep::Ignore,
        }
    }

    /// The answer to a question for the transactions of a template.
    pub fn transaction_data(&self, template_id: u64) -> (reply: Result<
        TransactionDataReply,
        String,
    >)
        ensures
            same_reply(reply, data_reply(self.templates@, template_id)),
    {
        match self.templates.get(&template_id) {
            Some(template) => match copy_transactions(&template.transaction_bytes) {
                Some(transaction_list) => {
                    if transaction_list.len() > 0xffff {
                        assert(crate::template::all_bytes(transaction_list@).len()
                            == transaction_list@.len());
                        return Err("too many transactions for SV2 Seq064K".to_owned());
                    }
                    assert(crate::template::all_bytes(transaction_list@).len()
                        == transaction_list@.len());
                    let excess_data: Vec<u8> = Vec::new();
                    assert(excess_data@ =~= Seq::<u8>::empty());
                    Ok(
                        TransactionDataReply::Success {
                            template_id,
                            transaction_list,
                            excess_data,
                        },
                    )
                },
                None => Err("transaction is too large for SV2 B016M".to_owned()),
            },
            None => {
                let ids = ids_of(&self.templates);
                let mut i: usize = 0;
                while i < ids.len()
                    invariant
                        i <= ids@.len(),
                        ids@.to_set() == self.templates@.dom(),
                        !self.templates@.contains_key(template_id),
                        forall|k: int| 0 <= k < i ==> ids@[k] <= template_id,
                    decreases ids@.len() - i,
                {
                    if template_id < ids[i] {
                        assert(ids@.contains(ids@[i as int]));
                        assert(self.templates@.contains_key(ids@[i as int]));
                        return Ok(
                            TransactionDataReply::Error {
                                template_id,
                                error_code: "stale-template-id".to_owned(),
                            },
                        );
                    }
                    i = i + 1;
                }
                assert forall|newer: u64| self.templates@.contains_key(newer) implies newer
                    <= template_id by {
                    assert(ids@.contains(newer));
                }
                Ok(
                    TransactionDataReply::Error {
                        template_id,
                        error_code: "template-id-not-found".to_owned(),
                    },
                )
            },
        }
    }

    /// The block of a solution.
    pub fn solution_block(&self, solution: &SubmitSolution) -> (block: Result<SolvedBlock, String>)
        ensures
            same_block(block, solution_outcome(self.templates@, *solution)),
    {
        match self.templates.get(&solution.template_id) {
            Some(template) => template.solution_block(solution),
            None => Err(
                labelled(
                    "solution references unknown template ",
                    decimal_text(solution.template_id).as_str(),
                ),
            ),
        }
    }

    /// Makes a template of an answer of the node and keeps it. The template has the next id, which
    /// is used up in any case.
    pub fn publish_gbt(
        &mut self,
        constraints: CoinbaseOutputConstraints,
        gbt: &GetBlockTemplate,
        future_template: bool,
        send_prev_hash: bool,
    ) -> (publication: Result<Publication, String>)
        requires
            old(self).wf(),
            gbt.height != 0x8000_0000_0000_0000,
        ensures
            final(self).wf(),
            same_but_templates(*final(self), *old(self)),
            final(self).next_template_id == next_id(old(self).next_template_id),
            ({
                let id = old(self).next_template_id;
                let additional = constraints.coinbase_output_max_additional_size;
                match publication {
                    Ok(p) => {
                        let template = crate::template::built_template(id, *gbt, additional);
                        &&& publish_complaint(id, *gbt, additional) is None
                        &&& exists|t: RpcTemplate|
                            t@ == template && final(self).templates@ == #[trigger] kept(
                                old(self).templates@.insert(id, t),
                            )
                        &&& p.new_template.announces(template, future_template)
                        &&& match p.set_new_prev_hash {
                            Some(message) => send_prev_hash && message.activates(template),
                            None => !send_prev_hash,
                        }
                        &&& p.published.prev_hash@ == template.prev_hash
                        &&& crate::rpc::optional_text(p.published.longpollid)
                            == crate::rpc::optional_text(gbt.longpollid)
                    },
                    Err(message) => {
                        &&& publish_complaint(id, *gbt, additional) == Some(message@)
                        &&& final(self).templates@ == old(self).templates@
                    },
                }
            }),
    {
        let id = self.next_template_id;
        self.next_template_id = id.wrapping_add(1);
        let additional = constraints.coinbase_output_max_additional_size;
        let template = match RpcTemplate::from_gbt(id, gbt, additional) {
            Ok(template) => template,
            Err(message) => return Err(message),
        };
        let ghost built = template;
        assert(crate::work::outputs_of(template.required_outputs@).len()
            == template.required_outputs@.len());
        let new_template = match template.new_template(future_template) {
            Ok(message) => message,
            Err(message) => return Err(message),
        };
        let set_new_prev_hash = if send_prev_hash {
            Some(template.set_new_prev_hash())
        } else {
            None
        };
        let prev_hash = template.prev_hash;
        let ghost all = self.templates@.insert(id, built);
        proof {
            newest_templates_are_kept(self.templates@, id, built);
        }
        self.templates.insert(id, template);
        assert(self.templates@ == all);
        if self.templates.len() > MAX_RETAINED_TEMPLATES {
            let least = least_id(&self.templates);
            proof {
                let chosen = choose|c: u64| is_least(all.dom(), c);
                lemma_least_is_unique(all.dom(), least, chosen);
            }
            self.templates.remove(&least);
        }
        assert(self.templates@ == kept(all));
        Ok(
            Publication {
                new_template,
                set_new_prev_hash,
                published: PublishedTemplate { prev_hash, longpollid: gbt.longpollid.clone() },
            },
        )
    }

    /// Takes note of how a refresh went. A template that was published sets the chain tip and the
    /// mark. If the initial refresh failed, the constraints are forgotten, and the provider goes on
    /// after the pause of so many seconds that is returned.
    pub fn on_refreshed(&mut self, initial: bool, outcome: Option<PublishedTemplate>) -> (pause:
        Option<u64>)
        requires
            old(self).wf(),
        ensures
            final(self).wf(),
            match outcome {
                Some(published) => {
                    &&& pause is None
                    &&& *final(self) == (BitcoinRpcTemplateProvider {
                        current_prev_hash: Some(published.prev_hash),
                        longpollid: published.longpollid,
                        ..*old(self)
                    })
                },
                None => if initial {
                    &&& pause == Some(old(self).retry_seconds)
                    &&& *final(self) == (BitcoinRpcTemplateProvider {
                        constraints: None,
                        ..*old(self)
                    })
                } else {
                    &&& pause is None
                    &&& *final(self) == *old(self)
                },
            },
    {
        match outcome {
            Some(published) => {
                self.current_prev_hash = Some(published.prev_hash);
                self.longpollid = published.longpollid;
                None
            },
            None => if initial {
                self.constraints = None;
                Some(self.retry_seconds)
            } else {
                None
            },
        }
    }

    /// Whether a chain tip is another one than that of the last template.
    pub open spec fn tip_changes(self, prev_hash: Seq<u8>) -> bool {
        match self.current_prev_hash {
            Some(current) => current@ != prev_hash,
            None => true,
        }
    }

    /// Whether the last template that was not for a new chain tip is too young at a time for
    /// another one.
    pub open spec fn too_soon(self, now: u128) -> bool {
        match self.last_non_tip_publish {
            Some(last) => (if now < last {
                0
            } else {
                now - last
            }) < self.min_interval_seconds * NANOS_PER_SECOND,
            None => false,
        }
    }

    /// Takes the node's answer to a question for a template. The mark of the answer is taken over
    /// even if its template is not published.
    pub fn on_template(&mut self, answer: &Result<GetBlockTemplate, String>, now: u128) -> (step:
        PollStep)
        requires
            old(self).wf(),
        ensures
            final(self).wf(),
            match *answer {
                Err(_) => step == (PollStep::Pause { seconds: old(self).retry_seconds })
                    && *final(self) == *old(self),
                Ok(gbt) => {
                    let text = gbt.previousblockhash@;
                    if !crate::block::is_hash_text(text) {
                        &&& step matches PollStep::Report { message } && message@
                            == "Bitcoin RPC returned invalid previousblockhash: "@
                            + crate::block::block_hash_error(text)
                        &&& *final(self) == *old(self)
                    } else {
                        let tip_changed = old(self).tip_changes(crate::block::hash_of_text(text));
                        &&& step == if !tip_changed && old(self).too_soon(now) {
                            PollStep::Throttled
                        } else {
                            PollStep::Publish { tip_changed }
                        }
                        &&& crate::rpc::optional_text(final(self).longpollid)
                            == crate::rpc::optional_text(gbt.longpollid)
                        &&& *final(self) == (BitcoinRpcTemplateProvider {
                            longpollid: final(self).longpollid,
                            ..*old(self)
                        })
                    }
                },
            },
    {
        let gbt = match answer {
            Ok(gbt) => gbt,
            Err(_) => return PollStep::Pause { seconds: self.retry_seconds },
        };
        let prev_hash = match read_block_hash(gbt.previousblockhash.as_str()) {
            Ok(hash) => hash,
            Err(reason) => {
                return PollStep::Report {
                    message: labelled(
                        "Bitcoin RPC returned invalid previousblockhash: ",
                        reason.as_str(),
                    ),
                };
            },
        };
        let tip_changed = match &self.current_prev_hash {
            Some(current) => !same_hash(current, &prev_hash),
            None => true,
        };
        let too_soon = match self.last_non_tip_publish {
            Some(last) => {
                let elapsed = if now < last {
                    0
                } else {
                    now - last
                };
                elapsed < self.min_interval_seconds as u128 * NANOS_PER_SECOND
            },
            None => false,
        };
        self.longpollid = gbt.longpollid.clone();
        if !tip_changed && too_soon {
            PollStep::Throttled
        } else {
            PollStep::Publish { tip_changed }
        }
    }

    /// Takes note of how the publication of a template went that a question brought. The time
    /// counts only if the template was not for a new chain tip.
    pub fn on_polled(
        &mut self,
        tip_changed: bool,
        outcome: Option<PublishedTemplate>,
        now: u128,
    )
        requires
            old(self).wf(),
        ensures
            final(self).wf(),
            match outcome {
                Some(published) => *final(self) == (BitcoinRpcTemplateProvider {
                    current_prev_hash: Some(published.prev_hash),
                    last_non_tip_publish: if tip_changed {
                        old(self).last_non_tip_publish
                    } else {
                        Some(now)
                    },
                    ..*old(self)
                }),
                None => *final(self) == *old(self),
            },
    {
        if let Some(published) = outcome {
            self.current_prev_hash = Some(published.prev_hash);
            if !tip_changed {
                self.last_non_tip_publish = Some(now);
            }
        }
    }
}

/// After a template was published at the time `first` that was not for a new chain tip, another
/// one on the same chain tip is too soon exactly until the least interval has passed, while one
/// for a new chain tip is published at any time.
pub proof fn templates_on_a_tip_keep_their_interval(
    before: BitcoinRpcTemplateProvider,
    published: PublishedTemplate,
    other_tip: Seq<u8>,
    first: u128,
    second: u128,
)
    requires
        first <= second,
        other_tip != published.prev_hash@,
    ensures
        ({
            let after = BitcoinRpcTemplateProvider {
                current_prev_hash: Some(published.prev_hash),
                last_non_tip_publish: Some(first),
                ..before
            };
            &&& !after.tip_changes(published.prev_hash@)
            &&& after.too_soon(second) <==> second - first < before.min_interval_seconds
                * NANOS_PER_SECOND
            &&& after.tip_changes(other_tip)
        }),
{
}

/// A template that was published and is kept is the one that its transactions are asked of: the
/// answer lists exactly what the block of a solution holds behind the coinbase.
pub proof fn data_and_solution_agree(
    templates: Map<u64, RpcTemplate>,
    solution: SubmitSolution,
)
    requires
        solution_outcome(templates, solution) is Ok,
        data_reply(templates, solution.template_id) matches Ok(reply) && reply is Success,
    ensures
        solution_outcome(templates, solution)->Ok_0.transactions == seq![solution.coinbase_tx@]
            + data_reply(templates, solution.template_id)->Ok_0->transaction_list,
{
}

/// Up to 32 templates are all kept. Beyond that, the one with the least id is given up, and no other.
pub proof fn the_oldest_template_is_given_up(templates: Map<u64, RpcTemplate>)
    requires
        templates.dom().finite(),
    ensures
        templates.dom().len() <= 32 ==> kept(templates) == templates,
        templates.dom().len() > 32 ==> exists|least: u64|
            {
                &&& templates.contains_key(least)
                &&& kept(templates) == #[trigger] templates.remove(least)
                &&& forall|other: u64| #[trigger]
                    templates.contains_key(other) ==> least <= other
            },
{
    if templates.dom().len() > 32 {
        lemma_least_exists(templates.dom());
        let least = choose|id: u64| is_least(templates.dom(), id);
        assert(kept(templates) == templates.remove(least));
        assert forall|other: u64| #[trigger] templates.contains_key(other) implies least
            <= other by {
            assert(templates.dom().contains(other));
        }
    }
}

/// Who asks for the transactions of a template that is kept gets all of them, byte for byte and in
/// their order, unless they do not fit the message. Of another template it is told that it is stale
/// if one with a greater id is kept, and that it is not known otherwise.
pub proof fn questions_for_transactions_are_answered(
    templates: Map<u64, RpcTemplate>,
    template_id: u64,
    reply: Result<TransactionDataReply, String>,
    k: int,
)
    requires
        same_reply(reply, data_reply(templates, template_id)),
    ensures
        ({
            let there = templates.contains_key(template_id);
            let listed = templates[template_id].transaction_bytes@;
            let large = exists|i: int|
                0 <= i < listed.len() && (#[trigger] listed[i])@.len() > 0xff_ffff;
            let newer = exists|other: u64| #[trigger]
                templates.contains_key(other) && other > template_id;
            &&& reply is Err <==> there && (large || listed.len() > 0xffff)
            &&& there && large ==> reply->Err_0@ == "transaction is too large for SV2 B016M"@
            &&& there && !large && listed.len() > 0xffff ==> reply->Err_0@
                == "too many transactions for SV2 Seq064K"@
            &&& there && !large && listed.len() <= 0xffff ==> {
                let answer = reply->Ok_0;
                &&& answer is Success
                &&& answer->Success_template_id == template_id
                &&& answer->excess_data@.len() == 0
                &&& answer->transaction_list@.len() == listed.len()
                &&& 0 <= k < listed.len() ==> answer->transaction_list@[k]@ == listed[k]@
            }
            &&& !there ==> {
                let answer = reply->Ok_0;
                &&& answer is Error
                &&& answer->Error_template_id == template_id
                &&& newer ==> answer->error_code@ == "stale-template-id"@
                &&& !newer ==> answer->error_code@ == "template-id-not-found"@
            }
        }),
{
    let listed = templates[template_id].transaction_bytes@;
    let views = crate::template::all_bytes(listed);
    assert(views.len() == listed.len());
    assert forall|i: int| 0 <= i < listed.len() implies (#[trigger] listed[i])@ == views[i] by {
    }
    if has_oversized(views) {
        let i = choose|i: int| 0 <= i < views.len() && (#[trigger] views[i]).len() > 0xff_ffff;
        assert(listed[i]@.len() > 0xff_ffff);
    }
    if templates.contains_key(template_id) && reply is Ok {
        let told = reply->Ok_0->transaction_list@;
        let told_views = crate::template::all_bytes(told);
        assert(told_views.len() == told.len());
        if 0 <= k < listed.len() {
            assert(told_views[k] == told[k]@);
        }
    }
}

/// A solution of a template that is not kept is refused with a message that ends with the id of the
/// template in decimal notation.
pub proof fn solutions_of_unknown_templates_are_refused(
    templates: Map<u64, RpcTemplate>,
    solution: SubmitSolution,
    block: Result<SolvedBlock, String>,
)
    requires
        !templates.contains_key(solution.template_id),
        same_block(block, solution_outcome(templates, solution)),
    ensures
        ({
            let front = "solution references unknown template "@;
            let message = block->Err_0@;
            &&& block is Err
            &&& message.take(front.len() as int) == front
            &&& crate::text::decimal_value(message.skip(front.len() as int))
                == solution.template_id
        }),
{
    let front = "solution references unknown template "@;
    let digits = crate::text::decimal(solution.template_id as nat);
    let message = front + digits;
    assert(message.take(front.len() as int) =~= front);
    assert(message.skip(front.len() as int) =~= digits);
    crate::text::decimal_notation_stands_for_its_number(solution.template_id as nat);
}

/// A solution of a template that is kept is held to that template.
pub proof fn solutions_are_held_to_their_template(
    templates: Map<u64, RpcTemplate>,
    others: Map<u64, RpcTemplate>,
    solution: SubmitSolution,
    block: Result<SolvedBlock, String>,
)
    requires
        templates.contains_key(solution.template_id),
        same_block(block, solution_outcome(templates, solution)),
    ensures
        block is Ok ==> {
            let template = templates[solution.template_id];
            let held = block->Ok_0;
            &&& held.header.prev_hash@ == template.prev_hash@
            &&& held.header.bits == template.bits
            &&& held.header.version == solution.version
            &&& held.header.time == solution.header_timestamp
            &&& held.header.nonce == solution.header_nonce
            &&& held.transactions@.len() == template.transaction_bytes@.len() + 1
            &&& held.transactions@[0]@ == solution.coinbase_tx@
        },
        block is Err ==> crate::template::solved_block(templates[solution.template_id]@, solution)
            == Err::<crate::template::Solved, Seq<char>>(block->Err_0@),
        others.contains_key(solution.template_id) && others[solution.template_id]
            == templates[solution.template_id] ==> solution_outcome(others, solution)
            == solution_outcome(templates, solution),
{
    if block is Ok {
        let listed = crate::template::all_bytes(block->Ok_0.transactions@);
        assert(listed.len() == block->Ok_0.transactions@.len());
        assert(listed[0] == block->Ok_0.transactions@[0]@);
    }
}

/// Ids count up by one and start again at zero behind the greatest.
pub proof fn ids_count_up(id: u64)
    ensures
        next_id(id) as int == (id + 1) % 0x1_0000_0000_0000_0000,
        next_id(id) != id,
{
}

/// An answer is published if and only if it gives a template and the template can be announced; the
/// complaint is that about the answer if there is one.
pub proof fn publications_fail_for_the_first_reason(
    id: u64,
    gbt: GetBlockTemplate,
    additional: u32,
)
    ensures
        ({
            let first = crate::template::template_complaint(gbt, additional);
            let second = crate::template::announcement_complaint(
                crate::template::built_template(id, gbt, additional),
            );
            let complaint = publish_complaint(id, gbt, additional);
            &&& complaint is None <==> first is None && second is None
            &&& first is Some ==> complaint == first
            &&& first is None && second is Some ==> complaint == second
        }),
{
}

/// Without an earlier template, or with one of an earlier time by the least interval in nanoseconds,
/// no template is too soon; before that each is, and on a clock that stands still or went back each
/// is unless there is no interval. The first template is always for a new chain tip.
pub proof fn intervals_are_counted_in_nanoseconds(
    provider: BitcoinRpcTemplateProvider,
    now: u128,
    tip: [u8; 32],
)
    ensures
        ({
            let interval = provider.min_interval_seconds * 1_000_000_000;
            let last = provider.last_non_tip_publish;
            let current = provider.current_prev_hash;
            &&& last is None ==> !provider.too_soon(now)
            &&& last is Some && now >= last->0 ==> (provider.too_soon(now) <==> now < last->0
                + interval)
            &&& last is Some && now < last->0 ==> (provider.too_soon(now) <==> interval > 0)
            &&& current is None ==> provider.tip_changes(tip@)
            &&& current is Some ==> (provider.tip_changes(tip@) <==> exists|k: int|
                0 <= k < 32 && #[trigger] tip@[k] != current->0@[k])
        }),
{
    if let Some(current) = provider.current_prev_hash {
        if forall|k: int| 0 <= k < 32 ==> #[trigger] tip@[k] == current@[k] {
            assert(tip@ =~= current@);
        }
    }
}

/// Without constraints the provider waits for a message of the pool alone, and with them for a
/// template behind the mark of the last one too.
pub proof fn templates_are_awaited_with_constraints(
    provider: BitcoinRpcTemplateProvider,
    wait: ProviderWait,
)
    requires
        call_ensures(BitcoinRpcTemplateProvider::wait, (&provider,), wait),
    ensures
        wait is Request <==> provider.constraints is None,
        wait is RequestOrTemplate ==> {
            let mark = wait->longpollid;
            &&& mark is Some <==> provider.longpollid is Some
            &&& mark is Some ==> mark->0@ == provider.longpollid->0@
        },
{
}

/// Constraints are kept and lead to a new template; nothing else that the pool sends changes the
/// provider. Until there are constraints, questions and solutions are not answered.
pub proof fn requests_count_once_there_are_constraints(
    provider: &mut BitcoinRpcTemplateProvider,
    request: ProviderRequest,
    step: RequestStep,
)
    requires
        old(provider).wf(),
        call_ensures(BitcoinRpcTemplateProvider::on_request, (provider, request), step),
    ensures
        ({
            let first = old(provider).constraints is None;
            &&& request is Constraints ==> {
                &&& step == (RequestStep::Refresh { initial: first })
                &&& final(provider).constraints == Some(request->Constraints_0)
            }
            &&& !(request is Constraints) ==> *final(provider) == *old(provider)
            &&& request is Other ==> step is Ignore
            &&& request is TransactionData ==> (step is Ignore <==> first) && (step is Answer
                <==> !first)
            &&& request is Solution ==> (step is Ignore <==> first) && (step is Submit <==> !first)
            &&& request is TransactionData && !first ==> same_reply(
                step->reply,
                data_reply(old(provider).templates@, request->template_id),
            )
            &&& request is Solution && !first ==> same_block(
                step->block,
                solution_outcome(old(provider).templates@, request->Solution_0),
            )
            &&& final(provider).templates == old(provider).templates
            &&& final(provider).rpc == old(provider).rpc
            &&& final(provider).next_template_id == old(provider).next_template_id
            &&& final(provider).longpollid == old(provider).longpollid
            &&& final(provider).current_prev_hash == old(provider).current_prev_hash
            &&& final(provider).last_non_tip_publish == old(provider).last_non_tip_publish
        }),
{
}

/// A provider starts without a template, a mark, a chain tip or constraints, numbers its templates
/// from one on, and pauses for at least a second.
pub proof fn providers_start_empty(
    config: BitcoinRpcConfig,
    cookie: &str,
    provider: Result<BitcoinRpcTemplateProvider, String>,
)
    requires
        call_ensures(BitcoinRpcTemplateProvider::new, (config, cookie), provider),
        provider is Ok,
    ensures
        ({
            let p = provider->Ok_0;
            &&& p.next_template_id == 1
            &&& forall|id: u64| !p.templates@.contains_key(id)
            &&& p.constraints is None
            &&& p.longpollid is None
            &&& p.current_prev_hash is None
            &&& p.last_non_tip_publish is None
            &&& p.min_interval_seconds == config.min_interval
            &&& p.retry_seconds >= 1
            &&& config.retry_seconds >= 1 ==> p.retry_seconds == config.retry_seconds
            &&& config.retry_seconds == 0 ==> p.retry_seconds == 1
            &&& p.rpc.url@ == config.url@
            &&& p.rpc.timeout_seconds >= 10
        }),
{
}

/// A template of an answer is published under the next id, and the message that activates it goes
/// out if and only if it is asked for. The id is used up in any case, and nothing but the templates
/// and their numbering changes.
pub proof fn published_templates_have_ids_of_their_own(
    provider: &mut BitcoinRpcTemplateProvider,
    constraints: CoinbaseOutputConstraints,
    gbt: GetBlockTemplate,
    future_template: bool,
    send_prev_hash: bool,
    publication: Result<Publication, String>,
)
    requires
        old(provider).wf(),
        call_ensures(
            BitcoinRpcTemplateProvider::publish_gbt,
            (provider, constraints, &gbt, future_template, send_prev_hash),
            publication,
        ),
    ensures
        ({
            let id = old(provider).next_template_id;
            let p = publication->Ok_0;
            &&& final(provider).next_template_id as int == (id + 1) % 0x1_0000_0000_0000_0000
            &&& publication is Err ==> final(provider).templates@ == old(provider).templates@
            &&& publication is Ok ==> {
                &&& p.new_template.template_id == id
                &&& p.new_template.future_template == future_template
                &&& p.new_template.coinbase_tx_value_remaining == gbt.coinbasevalue
                &&& p.set_new_prev_hash is Some <==> send_prev_hash
                &&& send_prev_hash ==> p.set_new_prev_hash->0.template_id == id
                    && p.set_new_prev_hash->0.prev_hash@ == p.published.prev_hash@
                &&& p.published.prev_hash@ == crate::encoding::hex_bytes(
                    gbt.previousblockhash@,
                ).reverse()
                &&& p.published.longpollid is Some <==> gbt.longpollid is Some
                &&& gbt.longpollid is Some ==> p.published.longpollid->0@ == gbt.longpollid->0@
                &&& old(provider).templates@.dom().len() < 32 && !old(
                    provider,
                ).templates@.contains_key(id) ==> final(provider).templates@.contains_key(id)
                    && final(provider).templates@.remove(id) == old(provider).templates@
                    && final(provider).templates@[id]@ == crate::template::built_template(
                    id,
                    gbt,
                    constraints.coinbase_output_max_additional_size,
                )
            }
            &&& final(provider).constraints == old(provider).constraints
            &&& final(provider).retry_seconds == old(provider).retry_seconds
            &&& final(provider).min_interval_seconds == old(provider).min_interval_seconds
            &&& final(provider).longpollid == old(provider).longpollid
            &&& final(provider).current_prev_hash == old(provider).current_prev_hash
            &&& final(provider).last_non_tip_publish == old(provider).last_non_tip_publish
            &&& final(provider).rpc == old(provider).rpc
        }),
{
    let id = old(provider).next_template_id;
    let before = old(provider).templates@;
    if publication is Ok && before.dom().len() < 32 && !before.contains_key(id) {
        let additional = constraints.coinbase_output_max_additional_size;
        let template = crate::template::built_template(id, gbt, additional);
        let t = choose|t: RpcTemplate|
            t@ == template && final(provider).templates@ == #[trigger] kept(before.insert(id, t));
        assert(before.insert(id, t).dom() =~= before.dom().insert(id));
        assert(before.insert(id, t).remove(id) =~= before);
    }
}

/// What a refresh brought sets chain tip and mark. If it brought nothing, everything stays, but for
/// the constraints that the initial refresh was made for: these have to be sent again, after a pause.
pub proof fn refreshes_set_tip_and_mark(
    provider: &mut BitcoinRpcTemplateProvider,
    initial: bool,
    outcome: Option<PublishedTemplate>,
    pause: Option<u64>,
)
    requires
        old(provider).wf(),
        call_ensures(
            BitcoinRpcTemplateProvider::on_refreshed,
            (provider, initial, outcome),
            pause,
        ),
    ensures
        pause is Some <==> initial && outcome is None,
        pause is Some ==> pause->0 == old(provider).retry_seconds && final(provider).constraints
            is None,
        pause is None ==> final(provider).constraints == old(provider).constraints,
        outcome is Some ==> final(provider).current_prev_hash == Some(outcome->0.prev_hash)
            && final(provider).longpollid == outcome->0.longpollid,
        outcome is None ==> final(provider).current_prev_hash == old(provider).current_prev_hash
            && final(provider).longpollid == old(provider).longpollid,
        final(provider).templates == old(provider).templates,
        final(provider).next_template_id == old(provider).next_template_id,
        final(provider).last_non_tip_publish == old(provider).last_non_tip_publish,
{
}

/// An answer of the node is published if it is for a new chain tip or comes late enough, and its
/// mark is taken over whether it is or not. An answer that names no chain tip, or none at all,
/// changes nothing.
pub proof fn answers_are_published_on_a_new_tip_or_in_time(
    provider: &mut BitcoinRpcTemplateProvider,
    answer: Result<GetBlockTemplate, String>,
    now: u128,
    step: PollStep,
)
    requires
        old(provider).wf(),
        call_ensures(BitcoinRpcTemplateProvider::on_template, (provider, &answer, now), step),
    ensures
        ({
            let gbt = answer->Ok_0;
            let text = gbt.previousblockhash@;
            let named = text.len() == 64 && crate::encoding::is_hex(text);
            let current = old(provider).current_prev_hash;
            let last = old(provider).last_non_tip_publish;
            let moved = current is None || current->0@ != crate::encoding::hex_bytes(
                text,
            ).reverse();
            let interval = old(provider).min_interval_seconds * 1_000_000_000;
            let late = last is None || now >= last->0 + interval || interval == 0;
            &&& answer is Err ==> step == (PollStep::Pause { seconds: old(provider).retry_seconds })
            &&& answer is Ok && !named ==> step is Report
            &&& answer is Err || !named ==> *final(provider) == *old(provider)
            &&& answer is Ok && named ==> {
                &&& moved ==> step == (PollStep::Publish { tip_changed: true })
                &&& !moved && late ==> step == (PollStep::Publish { tip_changed: false })
                &&& !moved && !late ==> step is Throttled
                &&& final(provider).longpollid is Some <==> gbt.longpollid is Some
                &&& gbt.longpollid is Some ==> final(provider).longpollid->0@ == gbt.longpollid->0@
            }
            &&& final(provider).current_prev_hash == old(provider).current_prev_hash
            &&& final(provider).last_non_tip_publish == old(provider).last_non_tip_publish
            &&& final(provider).templates == old(provider).templates
            &&& final(provider).constraints == old(provider).constraints
        }),
{
}

/// A template that was published sets the chain tip. The time counts only if the template was not
/// for a new one; what was not published changes nothing.
pub proof fn the_time_counts_on_the_same_tip(
    provider: &mut BitcoinRpcTemplateProvider,
    tip_changed: bool,
    outcome: Option<PublishedTemplate>,
    now: u128,
)
    requires
        old(provider).wf(),
        call_ensures(
            BitcoinRpcTemplateProvider::on_polled,
            (provider, tip_changed, outcome, now),
            (),
        ),
    ensures
        outcome is None ==> *final(provider) == *old(provider),
        outcome is Some ==> final(provider).current_prev_hash == Some(outcome->0.prev_hash),
        outcome is Some && !tip_changed ==> final(provider).last_non_tip_publish == Some(now),
        outcome is Some && tip_changed ==> final(provider).last_non_tip_publish == old(
            provider,
        ).last_non_tip_publish,
        final(provider).templates == old(provider).templates,
        final(provider).longpollid == old(provider).longpollid,
        final(provider).constraints == old(provider).constraints,
        final(provider).next_template_id == old(provider).next_template_id,
{
}

} // verus!
