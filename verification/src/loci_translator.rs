//! The local LLM translator's bookkeeping: its circuit breaker, which stops
//! calling a failing model for a while, and the decision taken on each
//! generation attempt.
use vstd::prelude::*;

use crate::loci_text::{compare_key, corrupted};
use crate::text::{chars_of, owned, trim};

verus! {

/// Consecutive failures that open the circuit.
pub const FAILURES_TO_OPEN: u32 = 3;

/// How long an open circuit stays open, in milliseconds.
pub const CIRCUIT_OPEN_MS: u64 = 300_000;

/// The local LLM translator. This build has no Loci backend, so no model is
/// ever loaded; the circuit breaker still works as it does with one.
pub struct LociTranslator {
    pub model_path: Option<String>,
    pub initialized: bool,
    pub consecutive_failures: u32,
    /// Until when (monotonic milliseconds) the circuit stays open.
    pub circuit_open_until: Option<u64>,
}

impl LociTranslator {
    /// A translator with no model and a closed circuit.
    pub fn new() -> (t: Self)
        ensures
            t.model_path is None,
            !t.initialized,
            t.consecutive_failures == 0,
            t.circuit_open_until is None,
    {
        LociTranslator {
            model_path: None,
            initialized: false,
            consecutive_failures: 0,
            circuit_open_until: None,
        }
    }

    /// Records a failure at monotonic time `now_ms`: the third failure in a row
    /// opens the circuit for five minutes and starts the count again.
    pub fn on_failure(&mut self, now_ms: u64)
        ensures
            failure_recorded(*old(self), *final(self), now_ms),
    {
        self.consecutive_failures = self.consecutive_failures.saturating_add(1);
        if self.consecutive_failures >= FAILURES_TO_OPEN {
            self.circuit_open_until = Some(now_ms.saturating_add(CIRCUIT_OPEN_MS));
            self.consecutive_failures = 0;
        }
    }

    /// Records a success: the failure count restarts and the circuit closes.
    pub fn on_success(&mut self)
        ensures
            final(self).model_path == old(self).model_path,
            final(self).initialized == old(self).initialized,
            final(self).consecutive_failures == 0,
            final(self).circuit_open_until is None,
    {
        self.consecutive_failures = 0;
        self.circuit_open_until = None;
    }

    /// Whether the circuit is open at monotonic time `now_ms`.
    pub fn circuit_open(&self, now_ms: u64) -> (b: bool)
        ensures
            b == (self.circuit_open_until matches Some(until) && now_ms < until),
    {
        match self.circuit_open_until {
            Some(until) => now_ms < until,
            None => false,
        }
    }

    /// Loading a model needs the Loci backend, which this build does not have.
    pub fn init(model_path: &str) -> (r: Result<Self, String>)
        ensures
            r matches Err(m) && m@ == "loci-backend feature is not enabled"@,
    {
        Err(owned("loci-backend feature is not enabled"))
    }

    /// The languages the translator handles: code and name.
    pub fn get_supported_languages(&self) -> (r: Vec<(String, String)>)
        ensures
            r@.len() == 8,
            r@[0].0@ == "en"@ && r@[0].1@ == "English"@,
            r@[1].0@ == "zh"@ && r@[1].1@ == "Chinese"@,
            r@[2].0@ == "ja"@ && r@[2].1@ == "Japanese"@,
            r@[3].0@ == "ko"@ && r@[3].1@ == "Korean"@,
            r@[4].0@ == "fr"@ && r@[4].1@ == "French"@,
            r@[5].0@ == "de"@ && r@[5].1@ == "German"@,
            r@[6].0@ == "es"@ && r@[6].1@ == "Spanish"@,
            r@[7].0@ == "ru"@ && r@[7].1@ == "Russian"@,
    {
        let mut r: Vec<(String, String)> = Vec::new();
        r.push((owned("en"), owned("English")));
        r.push((owned("zh"), owned("Chinese")));
        r.push((owned("ja"), owned("Japanese")));
        r.push((owned("ko"), owned("Korean")));
        r.push((owned("fr"), owned("French")));
        r.push((owned("de"), owned("German")));
        r.push((owned("es"), owned("Spanish")));
        r.push((owned("ru"), owned("Russian")));
        r
    }
}

/// The law of the circuit breaker: from a closed circuit with no failures,
/// three failures in a row open it, the third one at `t3` opening it until five
/// minutes later.
pub proof fn lemma_three_failures_open_circuit(c0: LociTranslator, c1: LociTranslator, c2: LociTranslator, c3: LociTranslator, t1: u64, t2: u64, t3: u64)
    requires
        c0.consecutive_failures == 0,
        c0.circuit_open_until is None,
        t3 as int + CIRCUIT_OPEN_MS <= u64::MAX,
        failure_recorded(c0, c1, t1),
        failure_recorded(c1, c2, t2),
        failure_recorded(c2, c3, t3),
    ensures
        c1.circuit_open_until is None,
        c2.circuit_open_until is None,
        c3.circuit_open_until == Some((t3 + CIRCUIT_OPEN_MS) as u64),
        c3.consecutive_failures == 0,
{
}

/// What `on_failure` at time `now_ms` makes of `before`.
pub open spec fn failure_recorded(before: LociTranslator, after: LociTranslator, now_ms: u64) -> bool {
    let n: int = if before.consecutive_failures == u32::MAX {
        u32::MAX as int
    } else {
        before.consecutive_failures + 1
    };
    &&& after.model_path == before.model_path
    &&& after.initialized == before.initialized
    &&& if n >= FAILURES_TO_OPEN {
        &&& after.consecutive_failures == 0
        &&& after.circuit_open_until == Some(
            if now_ms as int + CIRCUIT_OPEN_MS > u64::MAX {
                u64::MAX
            } else {
                (now_ms + CIRCUIT_OPEN_MS) as u64
            },
        )
    } else {
        &&& after.consecutive_failures == n
        &&& after.circuit_open_until == before.circuit_open_until
    }
}

/// What to do with one generation attempt's cleaned output.
pub enum AttemptDecision {
    /// The output looks garbled: try again with a little sampling.
    RetryGarbled,
    /// The output repeats the source: try again with more sampling.
    RetryEcho,
    /// The output still looks garbled: return it as a low-confidence result and
    /// count a failure.
    AcceptLowQuality,
    /// The output is usable: return it and count a success.
    Accept,
}

/// The decision for attempt `attempt` (0 for the first) whose cleaned output
/// is `translated`, for source `text` and target language `target`.
pub open spec fn attempt_decision(attempt: u32, translated: Seq<char>, text: Seq<char>, target: Seq<char>) -> AttemptDecision {
    let src_key = compare_key(text);
    let echo = src_key.len() > 0 && src_key == compare_key(translated);
    if corrupted(translated, target) && attempt == 0 {
        AttemptDecision::RetryGarbled
    } else if echo && attempt == 0 && trim(text).len() > 0 {
        AttemptDecision::RetryEcho
    } else if corrupted(translated, target) {
        AttemptDecision::AcceptLowQuality
    } else {
        AttemptDecision::Accept
    }
}

/// Decides what to do with one generation attempt's cleaned output.
pub fn decide_attempt(attempt: u32, translated: &str, text: &str, target_lang: &str) -> (d:
    AttemptDecision)
    ensures
        d == attempt_decision(attempt, translated@, text@, target_lang@),
{
    let tv = chars_of(text);
    let src_key = crate::loci_text::compare_key_of(&tv);
    let dv = chars_of(translated);
    let dst_key = crate::loci_text::compare_key_of(&dv);
    let echo = src_key.len() > 0 && crate::text::seq_eq(&src_key, &dst_key);
    let garbled = crate::loci_text::looks_corrupted(translated, target_lang);
    let text_nonempty = crate::text::trim_chars(&tv).len() > 0;
    if garbled && attempt == 0 {
        AttemptDecision::RetryGarbled
    } else if echo && attempt == 0 && text_nonempty {
        AttemptDecision::RetryEcho
    } else if garbled {
        AttemptDecision::AcceptLowQuality
    } else {
        AttemptDecision::Accept
    }
}

} // verus!
