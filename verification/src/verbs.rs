use crate::config::{
    default_bool, flag_or, get_member, get_str, member_of, required_text, ConfigError,
    ConfigFailure,
};
use crate::json::{
    item_views, lemma_array_view, lemma_object_view, member_views, Json, JsonValue, Member,
};
use crate::executor::InjectorEntry;
use crate::policy::InjectorRetryConf;
use crate::responder::ResponderEntry;
use crate::scenario::{transaction_get_verb, verb_of, EntryValue};
use crate::status::{SimulationStatus, StatusValue};
use crate::text::{lemma_lex_less_transitive, lex_less, rank, text_views, Rank};
use vstd::prelude::*;
use vstd::string::StringExecFns;

verus! {

/// One transaction as the verb surface sees it.
#[derive(Debug)]
pub struct Transac {
    pub uid: String,
    pub verb: String,
    pub query: Json,
    pub expect: Json,
    /// Whether the transaction stays off the verb surface.
    pub injector_only: bool,
}

/// Mathematical model of a `Transac`.
pub ghost struct TransacValue {
    pub uid: Seq<char>,
    pub verb: Seq<char>,
    pub query: JsonValue,
    pub expect: JsonValue,
    pub injector_only: bool,
}

impl View for Transac {
    type V = TransacValue;

    open spec fn view(&self) -> TransacValue {
        TransacValue {
            uid: self.uid@,
            verb: self.verb@,
            query: self.query@,
            expect: self.expect@,
            injector_only: self.injector_only,
        }
    }
}

impl Clone for Transac {
    /// A copy with the same model.
    fn clone(&self) -> (copy: Transac)
        ensures
            copy@ == self@,
    {
        Transac {
            uid: self.uid.clone(),
            verb: self.verb.clone(),
            query: self.query.clone(),
            expect: self.expect.clone(),
            injector_only: self.injector_only,
        }
    }
}

/// The payload under `key`, or an object without members when the key is
/// absent.
pub open spec fn payload_or_empty(transac: JsonValue, key: Seq<char>) -> JsonValue {
    match member_of(transac, key) {
        Some(payload) => payload,
        None => JsonValue::Object(Seq::empty()),
    }
}

/// What a transaction of the configuration says to the verb surface.
///
/// The uid is mandatory, the verb defaults to the one made of the uid,
/// query and expectation default to an object without members, and the
/// transaction is on the verb surface unless it says otherwise.
pub open spec fn transac_of(item: JsonValue) -> Result<TransacValue, ConfigFailure> {
    match required_text(item, "uid"@) {
        Err(failure) => Err(failure),
        Ok(uid) => match verb_of(item) {
            Err(failure) => Err(failure),
            Ok(verb) => match flag_or(item, "injector_only"@, false) {
                Err(failure) => Err(failure),
                Ok(injector_only) => Ok(
                    TransacValue {
                        uid,
                        verb,
                        query: payload_or_empty(item, "query"@),
                        expect: payload_or_empty(item, "expect"@),
                        injector_only,
                    },
                ),
            },
        },
    }
}

/// The model of a read transaction.
pub open spec fn transac_view(read: Result<Transac, ConfigError>) -> Result<
    TransacValue,
    ConfigFailure,
> {
    match read {
        Ok(transac) => Ok(transac@),
        Err(error) => Err(error@),
    }
}

/// The payload under `key`, or an object without members.
fn read_or_empty(item: &Json, key: &str) -> (payload: Json)
    ensures
        payload@ == payload_or_empty(item@, key@),
{
    match get_member(item, key) {
        Some(payload) => payload.clone(),
        None => {
            let none: Vec<Member> = Vec::new();
            proof {
                lemma_object_view(none);
            }
            assert(member_views(none@) =~= Seq::empty());
            Json::Object(none)
        },
    }
}

/// Reads what a transaction of the configuration says to the verb surface.
pub fn read_transac(item: &Json) -> (read: Result<Transac, ConfigError>)
    ensures
        transac_view(read) == transac_of(item@),
{
    let uid = match get_str(item, "uid") {
        Ok(uid) => uid,
        Err(error) => return Err(error),
    };
    let verb = match transaction_get_verb(item) {
        Ok(verb) => verb,
        Err(error) => return Err(error),
    };
    let injector_only = match default_bool(item, "injector_only", false) {
        Ok(flag) => flag,
        Err(error) => return Err(error),
    };
    Ok(
        Transac {
            uid,
            verb,
            query: read_or_empty(item, "query"),
            expect: read_or_empty(item, "expect"),
            injector_only,
        },
    )
}

/// The script of one verb: the transactions that share the verb, in the
/// order of the configuration.
#[derive(Debug)]
pub struct VerbScript {
    pub verb: String,
    pub steps: Vec<Transac>,
}

/// Mathematical model of a `VerbScript`.
pub ghost struct ScriptValue {
    pub verb: Seq<char>,
    pub steps: Seq<TransacValue>,
}

/// The models of a list of transactions, in order.
pub open spec fn transac_views(steps: Seq<Transac>) -> Seq<TransacValue> {
    Seq::new(steps.len(), |i: int| steps[i]@)
}

impl View for VerbScript {
    type V = ScriptValue;

    open spec fn view(&self) -> ScriptValue {
        ScriptValue { verb: self.verb@, steps: transac_views(self.steps@) }
    }
}

/// The models of a list of scripts, in order.
pub open spec fn script_views(scripts: Seq<VerbScript>) -> Seq<ScriptValue> {
    Seq::new(scripts.len(), |i: int| scripts[i]@)
}

/// The transactions among the first `upto` of `items` that are on the verb
/// surface under `verb`, in order.
pub open spec fn picked(items: Seq<TransacValue>, verb: Seq<char>, upto: int) -> Seq<TransacValue>
    decreases upto,
{
    if upto <= 0 || upto > items.len() {
        Seq::empty()
    } else {
        let before = picked(items, verb, upto - 1);
        let item = items[upto - 1];
        if !item.injector_only && item.verb == verb {
            before.push(item)
        } else {
            before
        }
    }
}

/// Whether `groups` are the scripts of the first `upto` of `items`.
///
/// Each script holds every transaction of its verb that is on the verb
/// surface, in order, and at least one. Every verb on the surface has
/// its script, and only one. The scripts stand in the dictionary order of
/// their verbs.
pub open spec fn grouped(groups: Seq<ScriptValue>, items: Seq<TransacValue>, upto: int) -> bool {
    &&& forall|g: int|
        0 <= g < groups.len() ==> {
            &&& (#[trigger] groups[g]).steps == picked(items, groups[g].verb, upto)
            &&& groups[g].steps.len() > 0
        }
    &&& forall|i: int|
        0 <= i < upto && !(#[trigger] items[i]).injector_only ==> exists|g: int|
            0 <= g < groups.len() && (#[trigger] groups[g]).verb == items[i].verb
    &&& forall|g: int, h: int|
        0 <= g < groups.len() && 0 <= h < groups.len() && g != h ==> (#[trigger] groups[g]).verb
            != (#[trigger] groups[h]).verb
    &&& forall|g: int|
        0 <= g && g + 1 < groups.len() ==> lex_less(
            (#[trigger] groups[g]).verb,
            groups[g + 1].verb,
        )
}

/// Scripts stand in the dictionary order of their verbs: of any two, the
/// earlier one has the earlier verb.
pub proof fn lemma_grouped_in_order(
    groups: Seq<ScriptValue>,
    items: Seq<TransacValue>,
    upto: int,
    g: int,
    h: int,
)
    requires
        grouped(groups, items, upto),
        0 <= g < h < groups.len(),
    ensures
        lex_less(groups[g].verb, groups[h].verb),
    decreases h - g,
{
    if g + 1 < h {
        lemma_grouped_in_order(groups, items, upto, g, h - 1);
        assert(lex_less(groups[h - 1].verb, groups[h].verb));
        lemma_lex_less_transitive(groups[g].verb, groups[h - 1].verb, groups[h].verb);
    }
}

/// Nothing is picked under a verb that no transaction on the surface has.
pub proof fn lemma_picked_none(items: Seq<TransacValue>, verb: Seq<char>, upto: int)
    requires
        0 <= upto <= items.len(),
        forall|i: int| 0 <= i < upto ==> (#[trigger] items[i]).injector_only || items[i].verb != verb,
    ensures
        picked(items, verb, upto) == Seq::<TransacValue>::empty(),
    decreases upto,
{
    if upto > 0 {
        lemma_picked_none(items, verb, upto - 1);
    }
}

/// Skipping a transaction that stays off the verb surface leaves the
/// scripts as they are.
proof fn lemma_grouped_skip(groups: Seq<ScriptValue>, items: Seq<TransacValue>, at: int)
    requires
        0 <= at < items.len(),
        items[at].injector_only,
        grouped(groups, items, at),
    ensures
        grouped(groups, items, at + 1),
{
    assert forall|i: int| 0 <= i < at + 1 && !(#[trigger] items[i]).injector_only implies exists|
        g: int,
    |
        0 <= g < groups.len() && (#[trigger] groups[g]).verb == items[i].verb by {
        assert(i < at);
    }
}

/// A transaction whose verb has a script goes to the end of that script.
proof fn lemma_grouped_append(
    before: Seq<ScriptValue>,
    after: Seq<ScriptValue>,
    items: Seq<TransacValue>,
    at: int,
    found: int,
)
    requires
        0 <= at < items.len(),
        !items[at].injector_only,
        grouped(before, items, at),
        0 <= found < before.len(),
        before[found].verb == items[at].verb,
        after.len() == before.len(),
        after[found].verb == before[found].verb,
        after[found].steps == before[found].steps.push(items[at]),
        forall|g: int| 0 <= g < before.len() && g != found ==> after[g] == before[g],
    ensures
        grouped(after, items, at + 1),
{
    assert forall|g: int| 0 <= g < after.len() implies (#[trigger] after[g]).verb
        == before[g].verb by {}
    assert forall|g: int| 0 <= g < after.len() implies {
        &&& (#[trigger] after[g]).steps == picked(items, after[g].verb, at + 1)
        &&& after[g].steps.len() > 0
    } by {
        if g != found {
            assert(after[g] == before[g]);
            assert(before[g].verb != before[found].verb);
        }
    }
    assert forall|i: int| 0 <= i < at + 1 && !(#[trigger] items[i]).injector_only implies exists|
        g: int,
    |
        0 <= g < after.len() && (#[trigger] after[g]).verb == items[i].verb by {
        if i < at {
            let g = choose|g: int|
                0 <= g < before.len() && (#[trigger] before[g]).verb == items[i].verb;
            assert(after[g].verb == items[i].verb);
        } else {
            assert(after[found].verb == items[i].verb);
        }
    }
    assert forall|g: int, h: int|
        0 <= g < after.len() && 0 <= h < after.len() && g != h implies (#[trigger] after[g]).verb
        != (#[trigger] after[h]).verb by {
        assert(before[g].verb != before[h].verb);
    }
    assert forall|g: int| 0 <= g && g + 1 < after.len() implies lex_less(
        (#[trigger] after[g]).verb,
        after[g + 1].verb,
    ) by {
        assert(lex_less(before[g].verb, before[g + 1].verb));
        assert(after[g + 1].verb == before[g + 1].verb);
    }
}

/// A transaction whose verb has no script yet opens one, at the place that
/// keeps the scripts in order.
proof fn lemma_grouped_insert(
    before: Seq<ScriptValue>,
    items: Seq<TransacValue>,
    at: int,
    spot: int,
)
    requires
        0 <= at < items.len(),
        !items[at].injector_only,
        grouped(before, items, at),
        forall|g: int| 0 <= g < before.len() ==> (#[trigger] before[g]).verb != items[at].verb,
        0 <= spot <= before.len(),
        forall|g: int| 0 <= g < spot ==> lex_less((#[trigger] before[g]).verb, items[at].verb),
        spot < before.len() ==> lex_less(items[at].verb, before[spot].verb),
    ensures
        grouped(
            before.insert(spot, ScriptValue { verb: items[at].verb, steps: seq![items[at]] }),
            items,
            at + 1,
        ),
{
    let verb = items[at].verb;
    let added = ScriptValue { verb, steps: seq![items[at]] };
    let after = before.insert(spot, added);
    before.insert_ensures(spot, added);
    assert forall|i: int| 0 <= i < at implies (#[trigger] items[i]).injector_only || items[i].verb
        != verb by {
        if !items[i].injector_only {
            let g = choose|g: int|
                0 <= g < before.len() && (#[trigger] before[g]).verb == items[i].verb;
            assert(before[g].verb != verb);
        }
    }
    lemma_picked_none(items, verb, at);
    assert(added.steps =~= Seq::<TransacValue>::empty().push(items[at]));
    assert forall|g: int| 0 <= g < after.len() implies {
        &&& (#[trigger] after[g]).steps == picked(items, after[g].verb, at + 1)
        &&& after[g].steps.len() > 0
    } by {
        if g < spot {
            assert(after[g] == before[g]);
            assert(before[g].verb != verb);
        } else if g > spot {
            assert(after[g] == before[g - 1]);
            assert(before[g - 1].verb != verb);
        }
    }
    assert forall|i: int| 0 <= i < at + 1 && !(#[trigger] items[i]).injector_only implies exists|
        g: int,
    |
        0 <= g < after.len() && (#[trigger] after[g]).verb == items[i].verb by {
        if i < at {
            let g = choose|g: int|
                0 <= g < before.len() && (#[trigger] before[g]).verb == items[i].verb;
            if g < spot {
                assert(after[g] == before[g]);
            } else {
                assert(after[g + 1] == before[g]);
            }
        } else {
            assert(after[spot].verb == items[i].verb);
        }
    }
    assert forall|g: int, h: int|
        0 <= g < after.len() && 0 <= h < after.len() && g != h implies (#[trigger] after[g]).verb
        != (#[trigger] after[h]).verb by {
        let gb = if g < spot {
            g
        } else {
            g - 1
        };
        let hb = if h < spot {
            h
        } else {
            h - 1
        };
        if g != spot && h != spot {
            assert(after[g] == before[gb]);
            assert(after[h] == before[hb]);
            assert(before[gb].verb != before[hb].verb);
        } else if g == spot {
            assert(after[h] == before[hb]);
            assert(before[hb].verb != verb);
        } else {
            assert(after[g] == before[gb]);
            assert(before[gb].verb != verb);
        }
    }
    assert forall|g: int| 0 <= g && g + 1 < after.len() implies lex_less(
        (#[trigger] after[g]).verb,
        after[g + 1].verb,
    ) by {
        if g + 1 < spot {
            assert(after[g] == before[g]);
            assert(after[g + 1] == before[g + 1]);
            assert(lex_less(before[g].verb, before[g + 1].verb));
        } else if g + 1 == spot {
            assert(after[g] == before[g]);
            assert(lex_less(before[g].verb, verb));
        } else if g == spot {
            assert(after[g + 1] == before[g]);
        } else {
            assert(after[g] == before[g - 1]);
            assert(after[g + 1] == before[g]);
            assert(lex_less(before[g - 1].verb, before[g].verb));
        }
    }
}

/// The position of the script of `verb`; the number of scripts when the
/// verb has none.
fn find_script(groups: &Vec<VerbScript>, verb: &String) -> (found: usize)
    ensures
        found <= groups.len(),
        found < groups.len() ==> script_views(groups@)[found as int].verb == verb@,
        forall|g: int| 0 <= g < found ==> (#[trigger] script_views(groups@)[g]).verb != verb@,
{
    let mut found: usize = 0;
    while found < groups.len() && groups[found].verb != *verb
        invariant
            found <= groups.len(),
            forall|g: int| 0 <= g < found ==> (#[trigger] script_views(groups@)[g]).verb != verb@,
        decreases groups.len() - found,
    {
        found += 1;
    }
    found
}

/// The position at which a script of `verb` keeps the scripts in order:
/// behind every script whose verb comes before it.
fn find_spot(groups: &Vec<VerbScript>, verb: &String) -> (spot: usize)
    ensures
        spot <= groups.len(),
        forall|g: int|
            0 <= g < spot ==> lex_less((#[trigger] script_views(groups@)[g]).verb, verb@),
        spot < groups.len() ==> {
            ||| script_views(groups@)[spot as int].verb == verb@
            ||| lex_less(verb@, script_views(groups@)[spot as int].verb)
        },
{
    let mut spot: usize = 0;
    while spot < groups.len() && rank(groups[spot].verb.as_str(), verb.as_str()) == Rank::Before
        invariant
            spot <= groups.len(),
            forall|g: int|
                0 <= g < spot ==> lex_less((#[trigger] script_views(groups@)[g]).verb, verb@),
        decreases groups.len() - spot,
    {
        spot += 1;
    }
    spot
}

/// Adds the transaction at position `at` of `items` to the scripts of the
/// transactions before it.
fn place(
    groups: &mut Vec<VerbScript>,
    item: &Transac,
    Ghost(items): Ghost<Seq<TransacValue>>,
    Ghost(at): Ghost<int>,
)
    requires
        0 <= at < items.len(),
        items[at] == item@,
        grouped(script_views(old(groups)@), items, at),
    ensures
        grouped(script_views(final(groups)@), items, at + 1),
{
    let ghost before = script_views(groups@);
    if item.injector_only {
        proof {
            lemma_grouped_skip(before, items, at);
        }
        return ;
    }
    let found = find_script(groups, &item.verb);
    if found < groups.len() {
        let copy = item.clone();
        let script = &mut groups[found];
        script.steps.push(copy);
        proof {
            let after = script_views(groups@);
            assert(after[found as int].steps =~= before[found as int].steps.push(item@));
            assert forall|g: int| 0 <= g < before.len() && g != found implies after[g]
                == before[g] by {
                assert(groups@[g] == old(groups)@[g]);
            }
            lemma_grouped_append(before, after, items, at, found as int);
        }
    } else {
        let spot = find_spot(groups, &item.verb);
        let mut steps: Vec<Transac> = Vec::new();
        steps.push(item.clone());
        let script = VerbScript { verb: item.verb.clone(), steps };
        proof {
            assert(script@.steps =~= seq![item@]);
            lemma_grouped_insert(before, items, at, spot as int);
        }
        let ghost added = script@;
        groups.insert(spot, script);
        proof {
            before.insert_ensures(spot as int, added);
            old(groups)@.insert_ensures(spot as int, groups@[spot as int]);
            assert(script_views(groups@) =~= before.insert(spot as int, added));
        }
    }
}

/// What the transactions of a configuration say to the verb surface, as
/// far as they can be read.
pub open spec fn read_all(items: Seq<JsonValue>) -> Seq<TransacValue> {
    Seq::new(items.len(), |i: int| transac_of(items[i])->Ok_0)
}

/// Whether `made` is what grouping `transactions` by verb yields.
///
/// The transactions must be an array. The first of them that cannot be
/// read gives the error. Otherwise the scripts are those of all of them.
pub open spec fn is_grouping_of(made: Result<Vec<VerbScript>, ConfigError>, transactions: JsonValue)
    -> bool {
    if !(transactions is Array) {
        made matches Err(error) && error@ == ConfigFailure::WrongType("transactions"@)
    } else {
        let items = transactions->Array_0;
        match made {
            Ok(groups) => {
                &&& forall|i: int| 0 <= i < items.len() ==> transac_of(#[trigger] items[i]) is Ok
                &&& grouped(script_views(groups@), read_all(items), items.len() as int)
            },
            Err(error) => exists|i: int|
                {
                    &&& 0 <= i < items.len()
                    &&& transac_of(#[trigger] items[i]) == Err::<TransacValue, ConfigFailure>(error@)
                    &&& forall|j: int| 0 <= j < i ==> transac_of(#[trigger] items[j]) is Ok
                },
        }
    }
}

/// Groups the transactions of a scenario by verb: one script per verb on
/// the verb surface, the scripts in the dictionary order of their verbs,
/// each with its transactions in the order of the configuration.
#[verifier::loop_isolation(false)]
pub fn create_transaction_group(transactions: &Json) -> (made: Result<Vec<VerbScript>, ConfigError>)
    ensures
        is_grouping_of(made, transactions@),
{
    let items = match transactions {
        Json::Array(items) => items,
        _ => return Err(ConfigError::WrongType(String::from_str("transactions"))),
    };
    proof {
        lemma_array_view(*items);
    }
    let ghost models = item_views(items@);
    let mut parsed: Vec<Transac> = Vec::new();
    let mut index: usize = 0;
    while index < items.len()
        invariant
            index <= items.len(),
            parsed.len() == index,
            forall|i: int|
                0 <= i < index ==> transac_of(#[trigger] models[i]) == Ok::<
                    TransacValue,
                    ConfigFailure,
                >(parsed@[i]@),
        decreases items.len() - index,
    {
        match read_transac(&items[index]) {
            Ok(transac) => parsed.push(transac),
            Err(error) => {
                assert(transac_of(models[index as int]) == Err::<TransacValue, ConfigFailure>(
                    error@,
                ));
                return Err(error);
            },
        }
        index += 1;
    }
    let ghost all = read_all(models);
    assert(all =~= transac_views(parsed@));
    let mut groups: Vec<VerbScript> = Vec::new();
    let mut at: usize = 0;
    while at < parsed.len()
        invariant
            at <= parsed.len(),
            parsed.len() == all.len(),
            grouped(script_views(groups@), all, at as int),
        decreases parsed.len() - at,
    {
        place(&mut groups, &parsed[at], Ghost(all), Ghost(at as int));
        at += 1;
    }
    Ok(groups)
}

/// Which side a verb is created for.
#[derive(Clone, Copy, Debug, PartialEq, Eq, Structural)]
pub enum TransactionVerbCtx {
    Responder,
    Injector,
}

/// What stands behind a verb of the verb surface.
#[derive(Debug)]
pub enum VerbEntry {
    /// The script that a responder answers from.
    Responder(ResponderEntry),
    /// The call that an injector makes when the verb is invoked by hand.
    Injector(InjectorEntry),
}

/// A verb of the verb surface: its name, the uids of the transactions it
/// stands for, and what stands behind it.
#[derive(Debug)]
pub struct TransactionVerb {
    pub verb: String,
    pub infos: Vec<String>,
    pub entry: VerbEntry,
}

/// The uids of a list of transactions, in order.
pub open spec fn uids_of(steps: Seq<TransacValue>) -> Seq<Seq<char>> {
    Seq::new(steps.len(), |i: int| steps[i].uid)
}

/// The queries of a list of transactions, in order.
pub open spec fn queries_of(steps: Seq<TransacValue>) -> Seq<JsonValue> {
    Seq::new(steps.len(), |i: int| steps[i].query)
}

/// The expectations of a list of transactions, in order.
pub open spec fn expects_of(steps: Seq<TransacValue>) -> Seq<JsonValue> {
    Seq::new(steps.len(), |i: int| steps[i].expect)
}

/// Whether `made` is the verb that `script` describes for the given side.
///
/// A responder's verb answers from the script, starting at its first query
/// in generation zero. An injector's verb needs a target; it calls the verb
/// itself with the script's queries, once, without delay, and has not been
/// called yet.
pub open spec fn is_verb_of(
    made: Result<TransactionVerb, ConfigError>,
    script: ScriptValue,
    context: TransactionVerbCtx,
    target: Option<Seq<char>>,
) -> bool {
    match context {
        TransactionVerbCtx::Responder => {
            &&& made matches Ok(verb)
            &&& verb.verb@ == script.verb
            &&& text_views(verb.infos@) == uids_of(script.steps)
            &&& verb.entry matches VerbEntry::Responder(entry)
            &&& entry.uid@ == script.verb
            &&& item_views(entry.queries@) == queries_of(script.steps)
            &&& item_views(entry.expects@) == expects_of(script.steps)
            &&& entry.sequence == 0
            &&& entry.nonce == 0
        },
        TransactionVerbCtx::Injector => match target {
            None => made matches Err(error) && error@ == ConfigFailure::MissingTarget,
            Some(target) => {
                &&& made matches Ok(verb)
                &&& verb.verb@ == script.verb
                &&& text_views(verb.infos@) == uids_of(script.steps)
                &&& verb.entry matches VerbEntry::Injector(entry)
                &&& entry@ == EntryValue {
                    uid: script.verb,
                    target,
                    verb: script.verb,
                    queries: queries_of(script.steps),
                    expects: expects_of(script.steps),
                    status: StatusValue::InvalidSequence,
                    retry: InjectorRetryConf { delay: 100, timeout: 1000, count: 1 },
                    delay: 0,
                    sequence: 0,
                }
            },
        },
    }
}

/// Creates the verb that `script` describes for the given side.
pub fn create_transaction_verb(
    script: &VerbScript,
    context: TransactionVerbCtx,
    target: Option<&str>,
) -> (made: Result<TransactionVerb, ConfigError>)
    ensures
        is_verb_of(
            made,
            script@,
            context,
            match target {
                Some(name) => Some(name@),
                None => None,
            },
        ),
{
    let mut infos: Vec<String> = Vec::new();
    let mut queries: Vec<Json> = Vec::new();
    let mut expects: Vec<Json> = Vec::new();
    let mut index: usize = 0;
    while index < script.steps.len()
        invariant
            index <= script.steps.len(),
            infos.len() == index,
            queries.len() == index,
            expects.len() == index,
            forall|i: int| 0 <= i < index ==> (#[trigger] infos@[i])@ == script.steps@[i].uid@,
            forall|i: int| 0 <= i < index ==> (#[trigger] queries@[i])@ == script.steps@[i].query@,
            forall|i: int| 0 <= i < index ==> (#[trigger] expects@[i])@ == script.steps@[i].expect@,
        decreases script.steps.len() - index,
    {
        let step = &script.steps[index];
        infos.push(step.uid.clone());
        queries.push(step.query.clone());
        expects.push(step.expect.clone());
        index += 1;
    }
    assert(text_views(infos@) =~= uids_of(script@.steps));
    assert(item_views(queries@) =~= queries_of(script@.steps));
    assert(item_views(expects@) =~= expects_of(script@.steps));
    match context {
        TransactionVerbCtx::Responder => Ok(
            TransactionVerb {
                verb: script.verb.clone(),
                infos,
                entry: VerbEntry::Responder(
                    ResponderEntry {
                        uid: script.verb.clone(),
                        queries,
                        expects,
                        sequence: 0,
                        nonce: 0,
                    },
                ),
            },
        ),
        TransactionVerbCtx::Injector => {
            let target_api = match target {
                Some(name) => name,
                None => return Err(ConfigError::MissingTarget),
            };
            Ok(
                TransactionVerb {
                    verb: script.verb.clone(),
                    infos,
                    entry: VerbEntry::Injector(
                        InjectorEntry {
                            uid: script.verb.clone(),
                            target: String::from_str(target_api),
                            verb: script.verb.clone(),
                            queries,
                            expects,
                            status: SimulationStatus::InvalidSequence,
                            retry: InjectorRetryConf::default(),
                            delay: 0,
                            sequence: 0,
                        },
                    ),
                },
            )
        },
    }
}

} // verus!
