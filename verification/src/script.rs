//! Rule scripts: evaluation in a sandbox, and the reading of what a script
//! yields.
//!
//! A script sees the variables of the event's scope and nothing else. The
//! engine that runs it offers the operators of the language and three
//! packages of functions: arithmetic, comparison and the conversion of
//! numbers. It has no module resolver, no output, no clock, nothing that
//! waits, no closures, no pointers to functions and no evaluation of text
//! as a script, and it stops a script that takes more than a fixed number
//! of operations or builds a value beyond a fixed size. What the script
//! yields is turned into plain values at once, and the verified part of the
//! library works on those.

use crate::scope::build_rhai_scope;
use crate::sports::MatchResult;
use rhai::packages::{ArithmeticPackage, BasicMathPackage, LogicPackage, Package};
use rhai::{Dynamic, Engine, EvalAltResult, Scope};
use vstd::prelude::*;

verus! {

/// The rule that settles a match between a home side and an away side once
/// it has ended: the winner's name and a payout for home, away and draw.
pub const DEFAULT_POLICY: &'static str = r#"
            if match_status != "ended" && status != "closed" {
                throw("Match has not ended yet");
            }

            if home_score > away_score {
                #{ outcome: home_team, payout: [1, 0, 0] }
            } else if away_score > home_score {
                #{ outcome: away_team, payout: [0, 1, 0] }
            } else {
                #{ outcome: "draw", payout: [0, 0, 1] }
            }
            "#;

/// The number of operations after which a script is stopped.
pub const MAX_OPERATIONS: u64 = 100_000;

/// The length in bytes beyond which a script's text value is refused.
pub const MAX_STRING_SIZE: usize = 4_096;

/// The number of elements beyond which a script's array is refused.
pub const MAX_ARRAY_SIZE: usize = 64;

/// The number of members beyond which a script's record is refused.
pub const MAX_MAP_SIZE: usize = 64;

/// The number of variables beyond which a script may declare no more. The
/// variables of the event's scope count among them.
pub const MAX_VARIABLES: usize = 256;

/// The keyword that makes a pointer to a function.
pub const FUNCTION_POINTER: &'static str = "Fn";

/// The keyword that evaluates a text as a script.
pub const EVALUATE: &'static str = "eval";

/// The member of a script's record that names the outcome.
pub const OUTCOME_KEY: &'static str = "outcome";

/// The member of a script's record that holds the payout.
pub const PAYOUT_KEY: &'static str = "payout";

/// Why a script gave no payout.
#[derive(Debug)]
pub enum ScriptError {
    /// The evaluation was aborted: the script threw, as a rule does for an
    /// event that cannot be settled yet, or it could not be run to its end.
    /// The text is the engine's account of it.
    Aborted(String),
    /// The script yielded no record with a text member `outcome`.
    MissingOutcome,
    /// The script yielded no record with an array member `payout`.
    MissingPayout,
}

/// What is said of a script without outcome.
pub const MISSING_OUTCOME: &'static str = "Missing or invalid outcome";

/// What is said of a script without payout.
pub const MISSING_PAYOUT: &'static str = "Missing or invalid payout";

impl ScriptError {
    /// The error in words. An aborted evaluation is told in the engine's
    /// words.
    pub open spec fn text(self) -> Seq<char> {
        match self {
            ScriptError::Aborted(account) => account@,
            ScriptError::MissingOutcome => MISSING_OUTCOME@,
            ScriptError::MissingPayout => MISSING_PAYOUT@,
        }
    }

    /// Says the error in words.
    pub fn message(&self) -> (message: String)
        ensures
            message@ == self.text(),
    {
        match self {
            ScriptError::Aborted(account) => account.clone(),
            ScriptError::MissingOutcome => MISSING_OUTCOME.to_owned(),
            ScriptError::MissingPayout => MISSING_PAYOUT.to_owned(),
        }
    }
}

/// What a script yielded, as far as the library reads it.
#[derive(Debug)]
pub struct ScriptOutput {
    /// The member `outcome` of the yielded record, where the script yielded
    /// a record and the member is a text.
    pub outcome: Option<String>,
    /// The member `payout` of the yielded record, where the script yielded a
    /// record and the member is an array. An element that is an integer
    /// stands with its value, any other element as `None`.
    pub payout: Option<Vec<Option<i64>>>,
}

/// What a [`ScriptOutput`] holds, as mathematical values.
pub struct Reading {
    pub outcome: Option<Seq<char>>,
    pub payout: Option<Seq<Option<i64>>>,
}

impl View for ScriptOutput {
    type V = Reading;

    open spec fn view(&self) -> Reading {
        Reading {
            outcome: match self.outcome {
                Some(outcome) => Some(outcome@),
                None => None,
            },
            payout: match self.payout {
                Some(items) => Some(items@),
                None => None,
            },
        }
    }
}

/// `rhai::Engine`, held as it is: only its ceilings and what it offers are
/// spoken of, through [`ceilings`] and [`offer`].
#[verifier::external_type_specification]
#[verifier::external_body]
pub struct ExEngine(Engine);

/// `rhai::Dynamic`, the value that a script yields, held as it is.
#[verifier::external_type_specification]
#[verifier::external_body]
pub struct ExDynamic(Dynamic);

/// `rhai::EvalAltResult`, the error that ends an evaluation, held as it is.
#[verifier::external_type_specification]
#[verifier::external_body]
pub struct ExEvalAltResult(EvalAltResult);

/// The ceilings that an engine holds a script to.
pub struct Ceilings {
    /// The number of operations of one evaluation; `0` for no ceiling.
    pub operations: u64,
    /// The length of a text, in bytes; `0` for no ceiling.
    pub string_size: usize,
    /// The number of elements of an array; `0` for no ceiling.
    pub array_size: usize,
    /// The number of members of a record; `0` for no ceiling.
    pub map_size: usize,
    /// The number of variables that a scope may hold at any instant, those
    /// that it was built with among them.
    pub variables: usize,
}

/// The ceilings of an engine: what its `max_operations`, `max_string_size`,
/// `max_array_size`, `max_map_size` and `max_variables` give.
pub uninterp spec fn ceilings(engine: Engine) -> Ceilings;

/// A package of functions that an engine can offer to scripts.
#[derive(Debug, Clone, Copy, PartialEq, Eq, Structural)]
pub enum RulePackage {
    /// Arithmetic on the number types that the language has no operators
    /// of its own for, among them the 32-bit scores.
    Arithmetic,
    /// Comparison of those number types.
    Logic,
    /// Conversion between the number types, the reading of numbers from
    /// text, and the functions of fractions.
    Math,
}

/// What an engine offers to scripts beyond the statements and operators of
/// the language.
pub struct Offer {
    /// The packages of functions that were registered with the engine. A
    /// script can call the functions of these packages, the functions that
    /// it defines itself, and the keywords of the language that are not
    /// disabled; it can call no other function.
    pub packages: Set<RulePackage>,
    /// Whether a script may write functions without a name, and with them
    /// closures.
    pub anonymous_functions: bool,
    /// The keywords and operators that a script may not use.
    pub disabled: Set<Seq<char>>,
    /// Whether the engine has a module resolver, so that a script can
    /// import modules.
    pub modules: bool,
    /// Whether the engine has somewhere to print to, so that a script's
    /// `print` and `debug` statements reach it.
    pub output: bool,
}

/// What an engine offers: the modules registered with it, what its
/// `allow_anonymous_fn` gives, what its `is_symbol_disabled` is true of,
/// and whether it was given a module resolver and print or debug callbacks.
pub uninterp spec fn offer(engine: Engine) -> Offer;

/// `rhai::Engine::new_raw`: an engine without module resolver and without
/// print or debug output. It has no ceiling on operations and sizes, and
/// allows as many variables as can be counted; no package is registered
/// with it, functions without a name are allowed, and no symbol is
/// disabled.
#[verifier::external_body]
fn engine_new_raw() -> (engine: Engine)
    ensures
        ceilings(engine) == (Ceilings {
            operations: 0,
            string_size: 0,
            array_size: 0,
            map_size: 0,
            variables: usize::MAX,
        }),
        offer(engine) == (Offer {
            packages: Set::empty(),
            anonymous_functions: true,
            disabled: Set::empty(),
            modules: false,
            output: false,
        }),
{
    Engine::new_raw()
}

/// `rhai::Engine::register_global_module`, with the module of
/// `rhai::packages::ArithmeticPackage`, `LogicPackage` or
/// `BasicMathPackage`: the package is registered beside those that were,
/// and nothing else changes. None of the three holds a function that
/// waits, reads the clock or ends the process.
#[verifier::external_body]
fn engine_register(engine: &mut Engine, package: RulePackage)
    ensures
        offer(*final(engine)) == (Offer {
            packages: offer(*old(engine)).packages.insert(package),
            ..offer(*old(engine))
        }),
        ceilings(*final(engine)) == ceilings(*old(engine)),
{
    let module = match package {
        RulePackage::Arithmetic => ArithmeticPackage::new().as_shared_module(),
        RulePackage::Logic => LogicPackage::new().as_shared_module(),
        RulePackage::Math => BasicMathPackage::new().as_shared_module(),
    };
    engine.register_global_module(module);
}

/// `rhai::Engine::set_allow_anonymous_fn`: sets whether functions without
/// a name are allowed, and nothing else.
#[verifier::external_body]
fn engine_set_allow_anonymous_fn(engine: &mut Engine, enable: bool)
    ensures
        offer(*final(engine)) == (Offer { anonymous_functions: enable, ..offer(*old(engine)) }),
        ceilings(*final(engine)) == ceilings(*old(engine)),
{
    engine.set_allow_anonymous_fn(enable);
}

/// `rhai::Engine::disable_symbol`: the symbol is disabled beside those that
/// were, and nothing else changes.
#[verifier::external_body]
fn engine_disable_symbol(engine: &mut Engine, symbol: &str)
    ensures
        offer(*final(engine)) == (Offer {
            disabled: offer(*old(engine)).disabled.insert(symbol@),
            ..offer(*old(engine))
        }),
        ceilings(*final(engine)) == ceilings(*old(engine)),
{
    engine.disable_symbol(symbol);
}

/// `rhai::Engine::set_max_operations`: sets the ceiling on operations and
/// nothing else.
#[verifier::external_body]
fn engine_set_max_operations(engine: &mut Engine, operations: u64)
    ensures
        ceilings(*final(engine)) == (Ceilings { operations, ..ceilings(*old(engine)) }),
        offer(*final(engine)) == offer(*old(engine)),
{
    engine.set_max_operations(operations);
}

/// `rhai::Engine::set_max_string_size`: sets the ceiling on the length of
/// texts and nothing else.
#[verifier::external_body]
fn engine_set_max_string_size(engine: &mut Engine, max_len: usize)
    ensures
        ceilings(*final(engine)) == (Ceilings { string_size: max_len, ..ceilings(*old(engine)) }),
        offer(*final(engine)) == offer(*old(engine)),
{
    engine.set_max_string_size(max_len);
}

/// `rhai::Engine::set_max_array_size`: sets the ceiling on the length of
/// arrays and nothing else.
#[verifier::external_body]
fn engine_set_max_array_size(engine: &mut Engine, max_size: usize)
    ensures
        ceilings(*final(engine)) == (Ceilings { array_size: max_size, ..ceilings(*old(engine)) }),
        offer(*final(engine)) == offer(*old(engine)),
{
    engine.set_max_array_size(max_size);
}

/// `rhai::Engine::set_max_map_size`: sets the ceiling on the size of
/// records and nothing else.
#[verifier::external_body]
fn engine_set_max_map_size(engine: &mut Engine, max_size: usize)
    ensures
        ceilings(*final(engine)) == (Ceilings { map_size: max_size, ..ceilings(*old(engine)) }),
        offer(*final(engine)) == offer(*old(engine)),
{
    engine.set_max_map_size(max_size);
}

/// `rhai::Engine::set_max_variables`: sets the ceiling on the number of
/// variables and nothing else.
#[verifier::external_body]
fn engine_set_max_variables(engine: &mut Engine, variables: usize)
    ensures
        ceilings(*final(engine)) == (Ceilings { variables, ..ceilings(*old(engine)) }),
        offer(*final(engine)) == offer(*old(engine)),
{
    engine.set_max_variables(variables);
}

/// The packages that a rule script may use.
pub open spec fn rule_packages() -> Set<RulePackage> {
    set![RulePackage::Arithmetic, RulePackage::Logic, RulePackage::Math]
}

/// The keywords that a rule script may not use: the one that makes a
/// pointer to a function, and the one that evaluates a text as a script.
pub open spec fn closed_keywords() -> Set<Seq<char>> {
    set![FUNCTION_POINTER@, EVALUATE@]
}

/// What a sandbox offers: the rule packages, no function without a name,
/// no pointer to a function, no evaluation of text, no modules and no
/// output.
pub open spec fn rule_offer() -> Offer {
    Offer {
        packages: rule_packages(),
        anonymous_functions: false,
        disabled: closed_keywords(),
        modules: false,
        output: false,
    }
}

/// The engine stops every script: it counts operations, it holds texts,
/// arrays and records to sizes at which a value cannot be nested too deep
/// to be walked, and it holds the number of variables to one at which they
/// cannot fill the memory.
pub open spec fn bounded(c: Ceilings) -> bool {
    &&& c.operations > 0
    &&& 0 < c.string_size <= MAX_STRING_SIZE
    &&& 0 < c.array_size <= MAX_ARRAY_SIZE
    &&& 0 < c.map_size <= MAX_MAP_SIZE
    &&& c.variables <= MAX_VARIABLES
}

/// `rhai::Engine::eval_with_scope`: the value that the script yields, or
/// the error that ended it.
///
/// The engine must be bounded, or a script may run without end or build
/// values without end. It must offer what a sandbox offers and nothing
/// more. Then no script can wait, read the clock or end the process. None
/// can make a pointer to a function and nest it in itself, with `Fn` or as
/// a closure. And none can evaluate a text that evaluates itself: the
/// engine holds the calls of a script's own functions to a depth, but not
/// those of `eval`. The script may add and change variables, so nothing is
/// stated of the scope.
/// The result has no name: the power of a fraction, and the other
/// functions of fractions in the math package, are computed by std with a
/// precision that std leaves open, so the same script need not yield the
/// same value twice.
#[verifier::external_body]
fn engine_eval(engine: &Engine, scope: &mut Scope<'static>, script: &str) -> Result<
    Dynamic,
    Box<EvalAltResult>,
>
    requires
        bounded(ceilings(*engine)),
        offer(*engine) == rule_offer(),
{
    engine.eval_with_scope::<Dynamic>(scope, script)
}

/// The `Display` text of a `rhai::EvalAltResult`.
#[verifier::external_body]
fn error_text(error: &EvalAltResult) -> String {
    error.to_string()
}

/// The members of the record that `value` is, as far as they are texts,
/// each under its name. It is empty where `value` is no record.
pub uninterp spec fn record_texts(value: Dynamic) -> Map<Seq<char>, Seq<char>>;

/// The members of the record that `value` is, as far as they are arrays,
/// each under its name. An element of an array that is an integer stands
/// with its value, any other element as `None`. It is empty where `value`
/// is no record.
pub uninterp spec fn record_arrays(value: Dynamic) -> Map<Seq<char>, Seq<Option<i64>>>;

/// What `members` holds under `name`, if anything.
pub open spec fn member<V>(members: Map<Seq<char>, V>, name: Seq<char>) -> Option<V> {
    if members.contains_key(name) {
        Some(members[name])
    } else {
        None
    }
}

/// `rhai::Dynamic::try_cast`, to an object map and then to a `String`: the
/// member `key` of `value`, where `value` is an object map and the member is
/// a string. That is what [`record_texts`] holds under `key`.
#[verifier::external_body]
fn text_member(value: &Dynamic, key: &str) -> (text: Option<String>)
    ensures
        match text {
            Some(t) => member(record_texts(*value), key@) == Some(t@),
            None => member(record_texts(*value), key@) is None,
        },
{
    let record = value.clone().try_cast::<rhai::Map>()?;
    record.get(key)?.clone().try_cast::<String>()
}

/// `rhai::Dynamic::try_cast`, to an object map and then to an array, and
/// `rhai::Dynamic::as_int` on each element: the member `key` of `value`,
/// where `value` is an object map and the member is an array. That is what
/// [`record_arrays`] holds under `key`.
#[verifier::external_body]
fn array_member(value: &Dynamic, key: &str) -> (items: Option<Vec<Option<i64>>>)
    ensures
        match items {
            Some(i) => member(record_arrays(*value), key@) == Some(i@),
            None => member(record_arrays(*value), key@) is None,
        },
{
    let record = value.clone().try_cast::<rhai::Map>()?;
    let items = record.get(key)?.clone().try_cast::<rhai::Array>()?;
    Some(items.iter().map(|item| item.as_int().ok()).collect())
}

/// What the library reads of the value that a script yielded: its text
/// member `outcome` and its array member `payout`, each where the value is
/// a record that has it.
pub open spec fn reading(value: Dynamic) -> Reading {
    Reading {
        outcome: member(record_texts(value), OUTCOME_KEY@),
        payout: member(record_arrays(value), PAYOUT_KEY@),
    }
}

/// The payout entry that the integer `v` stands for. An entry is a byte,
/// and an integer outside the range of a byte is held to it: one below `0`
/// pays `0`, one above `255` pays `255`. It is never wrapped around.
pub open spec fn saturated(v: i64) -> u8 {
    if v < 0 {
        0
    } else if v > 255 {
        255
    } else {
        v as u8
    }
}

/// The payout entry that an element of a script's array stands for: an
/// integer held to the range of a byte, and `0` for anything that is no
/// integer.
pub open spec fn coerced(item: Option<i64>) -> u8 {
    match item {
        Some(v) => saturated(v),
        None => 0,
    }
}

/// The payout vector that a script's array stands for.
pub open spec fn payout_of(items: Seq<Option<i64>>) -> Seq<u8> {
    items.map_values(|item: Option<i64>| coerced(item))
}

/// An integer in the range of a byte pays what it says.
pub proof fn lemma_saturated_in_range(v: i64)
    requires
        0 <= v <= 255,
    ensures
        saturated(v) == v,
{
}

/// A larger integer never pays less.
pub proof fn lemma_saturated_monotone(a: i64, b: i64)
    requires
        a <= b,
    ensures
        saturated(a) <= saturated(b),
{
}

/// Turns the elements of a script's array into a payout vector.
pub fn coerce_payout(items: &Vec<Option<i64>>) -> (payout: Vec<u8>)
    ensures
        payout@ == payout_of(items@),
{
    let mut payout: Vec<u8> = Vec::new();
    let mut i: usize = 0;
    while i < items.len()
        invariant
            i <= items.len(),
            payout@.len() == i,
            forall|j: int| 0 <= j < i ==> payout@[j] == coerced(items@[j]),
        decreases items.len() - i,
    {
        let entry: u8 = match items[i] {
            Some(v) => if v < 0 {
                0
            } else if v > 255 {
                255
            } else {
                v as u8
            },
            None => 0,
        };
        payout.push(entry);
        i += 1;
    }
    assert(payout@ =~= payout_of(items@));
    payout
}

/// `result` is what the reading `read` of a script's value comes to:
/// without an outcome the script is refused for that, whatever its payout;
/// with an outcome and no payout it is refused for the payout; with both,
/// the outcome stands beside the payout vector of the array.
pub open spec fn settles(result: Result<(String, Vec<u8>), ScriptError>, read: Reading) -> bool {
    match read.outcome {
        None => result matches Err(ScriptError::MissingOutcome),
        Some(outcome) => match read.payout {
            None => result matches Err(ScriptError::MissingPayout),
            Some(items) => result matches Ok((name, payout)) && name@ == outcome && payout@
                == payout_of(items),
        },
    }
}

/// Turns the output of a script into an outcome and a payout vector.
pub fn settle(output: ScriptOutput) -> (result: Result<(String, Vec<u8>), ScriptError>)
    ensures
        settles(result, output@),
{
    let outcome = match output.outcome {
        Some(outcome) => outcome,
        None => {
            return Err(ScriptError::MissingOutcome);
        },
    };
    let items = match output.payout {
        Some(items) => items,
        None => {
            return Err(ScriptError::MissingPayout);
        },
    };
    let payout = coerce_payout(&items);
    Ok((outcome, payout))
}

/// The ceilings of a sandbox for at most `max_operations` operations.
pub open spec fn sandbox_ceilings(max_operations: u64) -> Ceilings {
    Ceilings {
        operations: max_operations,
        string_size: MAX_STRING_SIZE,
        array_size: MAX_ARRAY_SIZE,
        map_size: MAX_MAP_SIZE,
        variables: MAX_VARIABLES,
    }
}

/// An engine for rule scripts. It offers the statements and operators of
/// the language and the functions of the [`rule_packages`], and nothing
/// else: no access to modules, no output, no clock, nothing that waits, no
/// function without a name, no pointer to a function and no evaluation of
/// text as a script. It allows at most
/// `max_operations` operations per evaluation, values no larger than
/// [`MAX_STRING_SIZE`], [`MAX_ARRAY_SIZE`] and [`MAX_MAP_SIZE`], and at
/// most [`MAX_VARIABLES`] variables. With `max_operations` at `0` the
/// number of operations has no ceiling.
pub fn sandbox(max_operations: u64) -> (engine: Engine)
    ensures
        ceilings(engine) == sandbox_ceilings(max_operations),
        offer(engine) == rule_offer(),
{
    let mut engine = engine_new_raw();
    engine_register(&mut engine, RulePackage::Arithmetic);
    engine_register(&mut engine, RulePackage::Logic);
    engine_register(&mut engine, RulePackage::Math);
    engine_set_allow_anonymous_fn(&mut engine, false);
    engine_disable_symbol(&mut engine, FUNCTION_POINTER);
    engine_disable_symbol(&mut engine, EVALUATE);
    engine_set_max_operations(&mut engine, max_operations);
    engine_set_max_string_size(&mut engine, MAX_STRING_SIZE);
    engine_set_max_array_size(&mut engine, MAX_ARRAY_SIZE);
    engine_set_max_map_size(&mut engine, MAX_MAP_SIZE);
    engine_set_max_variables(&mut engine, MAX_VARIABLES);
    assert(offer(engine).packages =~= rule_packages());
    assert(offer(engine).disabled =~= closed_keywords());
    engine
}

/// Reads what a script yielded: the member `outcome` where the value is a
/// record and the member a text, and the member `payout` where the value is
/// a record and the member an array.
pub fn read_output(value: &Dynamic) -> (output: ScriptOutput)
    ensures
        output@ == reading(*value),
{
    ScriptOutput {
        outcome: text_member(value, OUTCOME_KEY),
        payout: array_member(value, PAYOUT_KEY),
    }
}

/// What an evaluation ended with, as mathematical values: the reading of
/// the value that the script yielded, or the engine's account of the error
/// that ended it.
pub open spec fn ended_with(evaluation: Result<ScriptOutput, String>) -> Result<
    Reading,
    Seq<char>,
> {
    match evaluation {
        Ok(output) => Ok(output@),
        Err(account) => Err(account@),
    }
}

/// `result` is what an evaluation that ended with `ended` comes to: an
/// error of the engine is an abort with the engine's account of it, and a
/// yielded value comes to what its reading settles as.
pub open spec fn comes_to(
    result: Result<(String, Vec<u8>), ScriptError>,
    ended: Result<Reading, Seq<char>>,
) -> bool {
    match ended {
        Ok(read) => settles(result, read),
        Err(account) => result matches Err(ScriptError::Aborted(told)) && told@ == account,
    }
}

/// Concludes an evaluation from what the engine ended it with: the output
/// read of the value that the script yielded, or the engine's account of
/// the error.
pub fn conclude_evaluation(evaluation: Result<ScriptOutput, String>) -> (result: Result<
    (String, Vec<u8>),
    ScriptError,
>)
    ensures
        comes_to(result, ended_with(evaluation)),
{
    match evaluation {
        Ok(output) => settle(output),
        Err(account) => Err(ScriptError::Aborted(account)),
    }
}

/// `result` is what an evaluation may come to: the evaluation was aborted,
/// or the script yielded a value and `result` is what the reading of that
/// value comes to.
pub open spec fn evaluated(result: Result<(String, Vec<u8>), ScriptError>) -> bool {
    result matches Err(ScriptError::Aborted(_)) || exists|value: Dynamic|
        settles(result, #[trigger] reading(value))
}

/// Runs `script` over the scope of the event `data` and reads the outcome
/// and the payout vector that it yields.
///
/// What the script yields is for the engine to say; the result is what
/// [`conclude_evaluation`] makes of it. An evaluation that the engine ended
/// with an error is reported as [`ScriptError::Aborted`], with the engine's
/// account of it. Of a value that the script yielded, the result is what
/// [`settle`] makes of its [`reading`]: a value without text member
/// `outcome` is refused first, then one without array member `payout`, and
/// any other gives its outcome and the payout vector of its array. The
/// payout vector is not held to the payout invariants.
///
/// The script runs in a [`sandbox`] of [`MAX_OPERATIONS`] operations. The
/// ceilings on sizes are the library's own: a script that builds an array
/// of more than [`MAX_ARRAY_SIZE`] elements, a payout among them, a record
/// of more than [`MAX_MAP_SIZE`] members or a text of more than
/// [`MAX_STRING_SIZE`] bytes, or that declares more than [`MAX_VARIABLES`]
/// variables, is stopped, and the evaluation is reported as aborted. The
/// ceilings hold the evaluation, not the reading of the script's text: the
/// time that this takes grows with the length of the text.
pub fn evaluate_rhai_script(data: &MatchResult, script: &str) -> (result: Result<
    (String, Vec<u8>),
    ScriptError,
>)
    ensures
        evaluated(result),
{
    let engine = sandbox(MAX_OPERATIONS);
    let mut scope = build_rhai_scope(data);
    let evaluation = match engine_eval(&engine, &mut scope, script) {
        Ok(value) => {
            let output = read_output(&value);
            assert(output@ == reading(value));
            Ok(output)
        },
        Err(error) => Err(error_text(&error)),
    };
    conclude_evaluation(evaluation)
}

/// `released` is what a run hands out for the evaluation `evaluation` of an
/// event's rule and the summary `summary` of the event: the summary where
/// the rule settled the event, and else the error in words and no summary.
pub open spec fn releases(
    released: Result<Vec<u8>, String>,
    evaluation: Result<(String, Vec<u8>), ScriptError>,
    summary: Seq<u8>,
) -> bool {
    match evaluation {
        Ok(_) => released matches Ok(bytes) && bytes@ == summary,
        Err(e) => released matches Err(account) && account@ == e.text(),
    }
}

/// Ends a run: hands out the summary of the event where its rule settled
/// it. An error of the rule ends the run with the error in words, and
/// nothing is handed out.
pub fn release_summary(
    evaluation: Result<(String, Vec<u8>), ScriptError>,
    summary: Vec<u8>,
) -> (released: Result<Vec<u8>, String>)
    ensures
        releases(released, evaluation, summary@),
{
    match evaluation {
        Ok(_) => Ok(summary),
        Err(e) => Err(e.message()),
    }
}

} // verus!
