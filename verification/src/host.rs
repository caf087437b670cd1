use vstd::prelude::*;

use crate::duration::{parse_duration, spec_parse_duration};
use crate::model::DocValue;

verus! {

/// One poller registration made by the script: the action's source text
/// and its validated repeat interval.
#[derive(Debug, Clone, PartialEq, Eq)]
pub struct PollerEntry {
    pub source: String,
    pub interval: crate::duration::Interval,
}

/// Validate one `poll(source, interval)` request made by the script: the
/// interval must be a recognized duration, else the request is rejected
/// with the diagnostic text that surfaces to the script as an evaluation
/// error.
pub fn poll_request(source: String, interval: &str) -> (r: Result<PollerEntry, String>)
    ensures
        spec_parse_duration(interval@) matches Some(ms) ==> (r matches Ok(p) && p.source == source
            && p.interval.wf() && p.interval.total_millis() == ms),
        spec_parse_duration(interval@) is None ==> (r matches Err(m) && m@
            == "Invalid duration format (use '1s' or '500ms')"@),
{
    match parse_duration(interval) {
        Ok(d) => Ok(PollerEntry { source, interval: d }),
        Err(e) => Err(e.message()),
    }
}

#[verifier::external_type_specification]
#[verifier::external_body]
pub struct ExDynamic(rhai::Dynamic);

/// Relies on rhai::Dynamic::is_string, into_string and
/// try_cast::<rhai::Map> to tell a string, a table and every other kind
/// of value apart, converting each table entry in order; what the value
/// holds Verus does not see.
#[verifier::external_body]
fn dyn_to_doc(v: rhai::Dynamic) -> DocValue {
    if v.is_string() {
        match v.into_string() {
            Ok(s) => DocValue::Str(s),
            Err(_) => DocValue::Other,
        }
    } else if let Some(m) = v.try_cast::<rhai::Map>() {
        let mut out: Vec<(String, DocValue)> = Vec::new();
        for (k, x) in m {
            out.push((k.to_string(), dyn_to_doc(x)));
        }
        DocValue::Table(out)
    } else {
        DocValue::Other
    }
}

/// Relies on rhai::Engine::eval_with_scope to evaluate the script with
/// the `poll` binding registered first (rhai::Engine::register_fn), and
/// on rhai::Scope::iter for the globals the run left behind, in
/// declaration order. Every poller entry handed back was built by
/// [`poll_request`], so its interval is well formed; of the environment
/// nothing is promised, the script alone decides it.
#[verifier::external_body]
pub(crate) fn eval_with_poll(script: &str) -> (r: Result<
    (Vec<(String, DocValue)>, Vec<PollerEntry>),
    String,
>)
    ensures
        r matches Ok(v) ==> forall|i: int|
            0 <= i < v.1@.len() ==> (#[trigger] v.1@[i]).interval.wf(),
{
    let (tx, rx) = std::sync::mpsc::channel();
    let mut engine = rhai::Engine::new();
    engine.register_fn(
        "poll",
        move |src: String, ivl: String| -> Result<(), Box<rhai::EvalAltResult>> {
            tx.send(poll_request(src, &ivl)?).ok();
            Ok(())
        },
    );
    let mut scope = rhai::Scope::new();
    if let Err(e) = engine.eval_with_scope::<rhai::Dynamic>(&mut scope, script) {
        return Err(e.to_string());
    }
    let env = scope.iter().map(|(n, _, v)| (n.to_string(), dyn_to_doc(v))).collect();
    Ok((env, rx.try_iter().collect()))
}

} // verus!
