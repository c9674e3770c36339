//! The firewall rule lifecycle: building, installing, removing and
//! querying the kernel filter objects that redirect Router Advertisements
//! to the user-space queue.
//!
//! The rule set — table, chain, match rule, counter — is modelled as
//! plain data, built fresh on every install or remove call and proved to
//! carry the fixed, load-bearing names. Only the conversion of that model
//! into nftables schema objects and the kernel calls themselves are
//! trusted.

use vstd::prelude::*;
use crate::state::QUEUE_NUM;
use nftables::batch::Batch;
use nftables::expr::{Expression, Meta, MetaKey, NamedExpression, Payload, PayloadField};
use nftables::helper::{apply_ruleset, get_current_ruleset};
use nftables::schema::{Chain, NfListObject, NfObject, Rule, Table};
use nftables::stmt::{Match, Operator, Queue, Statement};
use nftables::types::{NfChainPolicy, NfChainType, NfFamily, NfHook};

verus! {

// ----- the rule-set model -----

/// The table holding everything this crate installs; IPv6 family.
pub struct TableModel {
    pub name: String,
}

/// The chain the match rule hangs on: a filter-type chain on the input
/// hook with the given priority and, when `policy_accept` holds, a
/// default-accept policy.
pub struct ChainModel {
    pub table: String,
    pub name: String,
    pub prio: i32,
    pub policy_accept: bool,
}

/// One condition or action of the match rule, in rule order.
pub enum RuleStep {
    /// Incoming-interface-name equality.
    MatchIifname { iface: String },
    /// ICMPv6 message-type equality.
    MatchIcmpv6Type { msg_type: u32 },
    /// Increment of the named counter.
    CountNamed { counter: String },
    /// Enqueue to the numbered user-space queue.
    EnqueueTo { queue_num: u32 },
}

/// The match rule: its place and its ordered steps.
pub struct RuleModel {
    pub table: String,
    pub chain: String,
    pub steps: Vec<RuleStep>,
    pub comment: String,
}

/// The named packet counter the rule increments.
pub struct CounterModel {
    pub table: String,
    pub name: String,
}

/// The ordered tuple of kernel objects one installation creates.
pub struct FirewallRuleSet {
    pub table: TableModel,
    pub chain: ChainModel,
    pub rule: RuleModel,
    pub counter: CounterModel,
}

/// The three fixed steps every match rule ends with, starting at `k`:
/// match ICMPv6 type 134 (Router Advertisement), count into `RA_counter`,
/// enqueue to the fixed queue number.
pub open spec fn spec_match_steps(s: Seq<RuleStep>, k: int) -> bool {
    &&& (s[k] matches RuleStep::MatchIcmpv6Type { msg_type } && msg_type == 134)
    &&& (s[k + 1] matches RuleStep::CountNamed { counter } && counter@ == "RA_counter"@)
    &&& (s[k + 2] matches RuleStep::EnqueueTo { queue_num } && queue_num == QUEUE_NUM as u32)
}

/// The full step list: when an interface is selected, its name-equality
/// match comes first; the fixed steps follow in order.
pub open spec fn spec_rule_steps_ok(s: Seq<RuleStep>, iface: Option<String>) -> bool {
    match iface {
        Some(n) => s.len() == 4 && (s[0] matches RuleStep::MatchIifname { iface: nm }
            && nm@ == n@) && spec_match_steps(s, 1),
        None => s.len() == 3 && spec_match_steps(s, 0),
    }
}

/// The whole rule set carries the fixed names: table `rafilter`, chain
/// `input` at priority 0 with default-accept policy, counter `RA_counter`,
/// and the match rule's steps in order.
pub open spec fn spec_ruleset_ok(r: FirewallRuleSet, iface: Option<String>) -> bool {
    &&& r.table.name@ == "rafilter"@
    &&& r.chain.table@ == "rafilter"@
    &&& r.chain.name@ == "input"@
    &&& r.chain.prio == 0
    &&& r.chain.policy_accept
    &&& r.rule.table@ == "rafilter"@
    &&& r.rule.chain@ == "input"@
    &&& spec_rule_steps_ok(r.rule.steps@, iface)
    &&& r.counter.table@ == "rafilter"@
    &&& r.counter.name@ == "RA_counter"@
}

/// The fixed table name: the unit of installation and teardown.
pub fn table_name() -> (s: String)
    ensures
        s@ == "rafilter"@,
{
    "rafilter".to_owned()
}

/// The fixed counter name. Installation and counter lookup both take it
/// from here, so the two can never disagree.
pub fn ra_counter_name() -> (s: String)
    ensures
        s@ == "RA_counter"@,
{
    "RA_counter".to_owned()
}

/// The fixed chain name.
fn chain_name() -> (s: String)
    ensures
        s@ == "input"@,
{
    "input".to_owned()
}

/// Builds the firewall rule set, fresh, by structure alone: the fixed
/// table, chain and counter names, and the match rule's steps — the
/// optional interface-name match, then ICMPv6-type 134, the counter
/// increment, and the enqueue — in exactly that order.
pub fn create_nftables_objects(iface: &Option<String>) -> (r: FirewallRuleSet)
    ensures
        spec_ruleset_ok(r, *iface),
{
    let mut steps: Vec<RuleStep> = Vec::new();
    match iface {
        Some(n) => steps.push(RuleStep::MatchIifname { iface: n.clone() }),
        None => (),
    }
    steps.push(RuleStep::MatchIcmpv6Type { msg_type: 134 });
    steps.push(RuleStep::CountNamed { counter: ra_counter_name() });
    steps.push(RuleStep::EnqueueTo { queue_num: QUEUE_NUM as u32 });
    FirewallRuleSet {
        table: TableModel { name: table_name() },
        chain: ChainModel {
            table: table_name(),
            name: chain_name(),
            prio: 0,
            policy_accept: true,
        },
        rule: RuleModel {
            table: table_name(),
            chain: chain_name(),
            steps,
            comment: "Queue ICMPv6 Router Advertisement packets".to_owned(),
        },
        counter: CounterModel { table: table_name(), name: ra_counter_name() },
    }
}

// ----- trusted boundary: nftables schema objects and kernel calls -----

#[verifier::external_type_specification]
#[verifier::external_body]
pub struct ExStatement(Statement);

#[verifier::external_type_specification]
#[verifier::external_body]
pub struct ExNfListObject(NfListObject);

/// Relies on nftables::stmt::Statement::Match with the iifname meta key:
/// the statement matching the incoming interface's name.
#[verifier::external_body]
fn stmt_match_iifname(iface: &String) -> Statement {
    Statement::Match(Match {
        left: Expression::Named(NamedExpression::Meta(Meta { key: MetaKey::Iifname })),
        right: Expression::String(iface.clone()),
        op: Operator::EQ,
    })
}

/// Relies on nftables::stmt::Statement::Match on the icmpv6 `type`
/// payload field: the statement matching the ICMPv6 message type.
#[verifier::external_body]
fn stmt_match_icmpv6_type(msg_type: u32) -> Statement {
    let field = PayloadField { protocol: "icmpv6".to_string(), field: "type".to_string() };
    Statement::Match(Match {
        left: Expression::Named(NamedExpression::Payload(Payload::PayloadField(field))),
        right: Expression::Number(msg_type),
        op: Operator::EQ,
    })
}

/// Relies on nftables::stmt::Statement::CounterRef: an increment of the
/// named counter.
#[verifier::external_body]
fn stmt_count_named(counter: &String) -> Statement {
    Statement::CounterRef(counter.clone())
}

/// Relies on nftables::stmt::Statement::Queue: enqueue to the numbered
/// user-space queue, with no queue flags.
#[verifier::external_body]
fn stmt_enqueue_to(queue_num: u32) -> Statement {
    Statement::Queue(Queue { num: Expression::Number(queue_num), flags: None })
}

/// Relies on nftables::schema::Table: an IPv6-family table carrying the
/// model's name.
#[verifier::external_body]
fn nf_table(t: &TableModel) -> NfListObject {
    NfListObject::Table(Table { family: NfFamily::IP6, name: t.name.clone(), handle: None })
}

/// Relies on nftables::schema::Chain: an IPv6 filter-type chain on the
/// input hook, with the model's table, name and priority, and a
/// default-accept (or drop) policy as the model says.
#[verifier::external_body]
fn nf_chain(c: &ChainModel) -> NfListObject {
    let policy = if c.policy_accept { NfChainPolicy::Accept } else { NfChainPolicy::Drop };
    NfListObject::Chain(Chain {
        family: NfFamily::IP6,
        table: c.table.clone(),
        name: c.name.clone(),
        newname: None,
        handle: None,
        _type: Some(NfChainType::Filter),
        hook: Some(NfHook::Input),
        prio: Some(c.prio),
        dev: None,
        policy: Some(policy),
    })
}

/// Relies on nftables::schema::Rule: an IPv6 rule in the model's table
/// and chain, whose expression list is the given statements in order,
/// with the model's comment.
#[verifier::external_body]
fn nf_rule(r: &RuleModel, stmts: Vec<Statement>) -> NfListObject {
    NfListObject::Rule(Rule {
        family: NfFamily::IP6,
        table: r.table.clone(),
        chain: r.chain.clone(),
        expr: stmts,
        handle: None,
        index: None,
        comment: Some(r.comment.clone()),
    })
}

/// Relies on nftables::schema::Counter: a named counter in the model's
/// table, with no initial packet or byte values.
#[verifier::external_body]
fn nf_counter(c: &CounterModel) -> NfListObject {
    NfListObject::Counter(nftables::schema::Counter {
        family: "ip6".to_string(),
        table: c.table.clone(),
        name: c.name.clone(),
        handle: None,
        packets: None,
        bytes: None,
    })
}

/// Relies on nftables::batch::Batch and nftables::helper::apply_ruleset:
/// stages an `add` of the four given objects, in argument order, as one
/// batch, and asks the kernel to apply it. Whether the kernel accepts
/// depends on its state and privileges, so only the success/failure
/// split is visible here.
#[verifier::external_body]
fn nft_apply_add(
    table: NfListObject,
    chain: NfListObject,
    rule: NfListObject,
    counter: NfListObject,
) -> Result<(), String> {
    let mut batch = Batch::new();
    batch.add(table);
    batch.add(chain);
    batch.add(rule);
    batch.add(counter);
    apply_ruleset(&batch.to_nftables(), None, None).map_err(|e| e.to_string())
}

/// Relies on nftables::batch::Batch::delete and
/// nftables::helper::apply_ruleset: stages a `delete` of the one given
/// object and asks the kernel to apply it.
#[verifier::external_body]
fn nft_apply_delete(obj: NfListObject) -> Result<(), String> {
    let mut batch = Batch::new();
    batch.delete(obj);
    apply_ruleset(&batch.to_nftables(), None, None).map_err(|e| e.to_string())
}

/// One object of the kernel's live rule set, reduced to what counter
/// lookup reads: a named counter with its packet count; anything else is
/// opaque.
pub enum RulesetEntry {
    CounterEntry { name: String, packets: Option<u32> },
    OtherEntry,
}

/// Relies on nftables::helper::get_current_ruleset: queries the kernel
/// for the live rule set. Each returned object becomes a `CounterEntry` —
/// carrying the counter's name and packet count — when it is a named
/// counter, and `OtherEntry` otherwise. What comes back depends on the
/// kernel's state, so nothing is promised of the listing itself.
#[verifier::external_body]
fn fetch_ruleset_entries() -> Result<Vec<RulesetEntry>, String> {
    let ruleset = get_current_ruleset(None, None).map_err(|e| e.to_string())?;
    Ok(ruleset.objects.into_iter().map(|o| match o {
        NfObject::ListObject(NfListObject::Counter(c)) => {
            RulesetEntry::CounterEntry { name: c.name, packets: c.packets }
        },
        _ => RulesetEntry::OtherEntry,
    }).collect())
}

// ----- verified logic over the trusted boundary -----

/// Converts the model's rule steps into nftables statements, one each,
/// keeping their order.
fn build_statements(steps: &Vec<RuleStep>) -> (r: Vec<Statement>)
    ensures
        r@.len() == steps@.len(),
{
    let mut out: Vec<Statement> = Vec::new();
    let n = steps.len();
    let mut i: usize = 0;
    while i < n
        invariant
            n == steps@.len(),
            i <= n,
            out@.len() == i as int,
        decreases n - i,
    {
        let s = match &steps[i] {
            RuleStep::MatchIifname { iface } => stmt_match_iifname(iface),
            RuleStep::MatchIcmpv6Type { msg_type } => stmt_match_icmpv6_type(*msg_type),
            RuleStep::CountNamed { counter } => stmt_count_named(counter),
            RuleStep::EnqueueTo { queue_num } => stmt_enqueue_to(*queue_num),
        };
        out.push(s);
        i = i + 1;
    }
    out
}

/// Installs the rule set: builds the model — restricted to the selected
/// interface when one is set — converts it, and applies table, chain,
/// rule and counter to the kernel as one batch. The result is the
/// kernel's answer.
pub fn setup_nftables(iface: &Option<String>) -> (r: Result<(), String>) {
    let rs = create_nftables_objects(iface);
    let stmts = build_statements(&rs.rule.steps);
    let t = nf_table(&rs.table);
    let c = nf_chain(&rs.chain);
    let rl = nf_rule(&rs.rule, stmts);
    let ct = nf_counter(&rs.counter);
    nft_apply_add(t, c, rl, ct)
}

/// Removes the rule set. The table is rebuilt by structure — never read
/// back from the kernel — and only the table is deleted: in the kernel's
/// filter model, deleting a table removes its chain, rules and counters
/// with it, so no partial removal can be left behind. The delete batch is
/// the same whether or not anything is installed.
pub fn delete_nftables() -> (r: Result<(), String>) {
    let rs = create_nftables_objects(&None);
    let t = nf_table(&rs.table);
    nft_apply_delete(t)
}

/// Whether a ruleset entry is a counter bearing the looked-up name.
pub open spec fn spec_entry_matches(e: RulesetEntry, target: Seq<char>) -> bool {
    e matches RulesetEntry::CounterEntry { name, .. } && name@ == target
}

/// The packet count of the first counter named `target` in a rule-set
/// listing: `None` when no counter bears that name, or when the matching
/// counter reports no count.
pub open spec fn spec_find_counter(s: Seq<RulesetEntry>, target: Seq<char>) -> Option<u32>
    decreases s.len(),
{
    if s.len() == 0 {
        None
    } else {
        match s[0] {
            RulesetEntry::CounterEntry { name, packets } => if name@ == target {
                packets
            } else {
                spec_find_counter(s.drop_first(), target)
            },
            RulesetEntry::OtherEntry => spec_find_counter(s.drop_first(), target),
        }
    }
}

/// Linearly scans a rule-set listing for the first counter with the
/// given name and returns its packet count.
pub fn find_counter_packets(entries: &Vec<RulesetEntry>, target: &String) -> (r: Option<u32>)
    ensures
        r == spec_find_counter(entries@, target@),
{
    let n = entries.len();
    proof {
        assert(entries@.skip(0) =~= entries@);
    }
    let mut i: usize = 0;
    while i < n
        invariant
            n == entries@.len(),
            i <= n,
            spec_find_counter(entries@, target@) == spec_find_counter(
                entries@.skip(i as int),
                target@,
            ),
        decreases n - i,
    {
        proof {
            assert(entries@.skip(i as int).len() == n - i as int);
            assert(entries@.skip(i as int)[0] == entries@[i as int]);
            assert(entries@.skip(i as int).drop_first() =~= entries@.skip(i as int + 1));
        }
        match &entries[i] {
            RulesetEntry::CounterEntry { name, packets } => {
                if name.eq(target) {
                    proof {
                        assert(spec_find_counter(entries@.skip(i as int), target@)
                            == entries@[i as int]->packets);
                    }
                    return *packets;
                }
                proof {
                    assert(spec_find_counter(entries@.skip(i as int), target@)
                        == spec_find_counter(entries@.skip(i as int).drop_first(), target@));
                }
            },
            RulesetEntry::OtherEntry => {
                proof {
                    assert(spec_find_counter(entries@.skip(i as int), target@)
                        == spec_find_counter(entries@.skip(i as int).drop_first(), target@));
                }
            },
        }
        i = i + 1;
    }
    proof {
        assert(entries@.skip(n as int) =~= Seq::<RulesetEntry>::empty());
    }
    None
}

/// Reads the packet count of the interception rule's counter from the
/// kernel's live rule set. The lookup name comes from the same source
/// the installation used, so install and query can never disagree.
/// `Ok(None)` means no counter of that name is installed. A failed
/// kernel read is surfaced as the error: there is no fallback source
/// for the count.
pub fn get_counter_value() -> (r: Result<Option<u32>, String>) {
    match fetch_ruleset_entries() {
        Ok(entries) => {
            let target = ra_counter_name();
            Ok(find_counter_packets(&entries, &target))
        },
        Err(e) => Err(e),
    }
}

/// Counter lookup correctness, found case: when position `i` holds the
/// first counter bearing the looked-up name, the lookup returns exactly
/// that counter's packet count — `Some(0)` for a freshly installed
/// counter, `Some(n)` once `n` matching packets were counted.
pub proof fn lemma_counter_lookup_found(s: Seq<RulesetEntry>, i: int, target: Seq<char>)
    requires
        0 <= i < s.len(),
        spec_entry_matches(s[i], target),
        forall|j: int| 0 <= j < i ==> !spec_entry_matches(#[trigger] s[j], target),
    ensures
        spec_find_counter(s, target) == s[i]->packets,
    decreases i,
{
    if i == 0 {
    } else {
        assert(!spec_entry_matches(s[0], target));
        lemma_counter_lookup_found(s.drop_first(), i - 1, target);
        assert(s.drop_first()[i - 1] == s[i]);
        assert(forall|j: int| 0 <= j < i - 1 ==> s.drop_first()[j] == #[trigger] s[j + 1]);
    }
}

/// Counter lookup correctness, absent case: a listing with no counter of
/// the looked-up name — as when the rule set was never installed — makes
/// the lookup return nothing.
pub proof fn lemma_counter_lookup_absent(s: Seq<RulesetEntry>, target: Seq<char>)
    requires
        forall|j: int| 0 <= j < s.len() ==> !spec_entry_matches(#[trigger] s[j], target),
    ensures
        spec_find_counter(s, target) is None,
    decreases s.len(),
{
    if s.len() > 0 {
        lemma_counter_lookup_absent(s.drop_first(), target);
        assert(forall|j: int| 0 <= j < s.len() - 1 ==> s.drop_first()[j] == #[trigger] s[j + 1]);
    }
}

/// The kernel-side model of teardown: deleting the table removes
/// everything hanging under it, so removal lands in the empty state from
/// any starting state — everything installed, a partial set, or nothing
/// at all — and repeating it changes nothing. Teardown is idempotent and
/// safe to call when nothing is installed.
pub open spec fn spec_after_remove(installed: Option<FirewallRuleSet>) -> Option<FirewallRuleSet> {
    None
}

/// Idempotent teardown over the model: removing twice lands where
/// removing once does, and removing from the empty state is still the
/// empty state.
pub proof fn lemma_teardown_idempotent(installed: Option<FirewallRuleSet>)
    ensures
        spec_after_remove(spec_after_remove(installed)) == spec_after_remove(installed),
        spec_after_remove(Option::None) is None,
{
}

} // verus!
