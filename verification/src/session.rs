//! The completion session: conversational context, a persistence target, a
//! dump policy, and the exclusively owned transport client handle.
//!
//! The session decides, per policy, when its context is persisted; the
//! driver performs the actual write and acknowledges a successful one with
//! `record_dump`. Timestamps are milliseconds on the driver's monotonic
//! clock, 0 being the start of the session.

use vstd::prelude::*;
use vstd::string::StringExecFns;
use crate::codec::encode_lines;
use crate::codec::serialize_context;
use crate::codec::string_views;
use crate::errors::ChatError;
use crate::policy::DumpPolicy;
use crate::policy::TriggerKind;
use crate::policy::dump_due;
use crate::policy::spec_should_dump;
use crate::transport;
use crate::transport::TransportHandle;
use async_openai::types::completions::CreateCompletionRequest;

verus! {

/// The token cap used when a request names none.
pub const DEFAULT_MAX_TOKENS: u32 = 4096;

/// A completion session. Constructed once with an empty context, a fixed
/// persistence path and a chosen dump policy; the context is only ever
/// appended to, and `last_dump` only advances, on a successful write.
pub struct Completion {
    /// The conversation transcript, in order; append-only.
    pub context: Vec<String>,
    /// Where the context may be persisted; never changes after construction.
    pub file: String,
    /// When the context is written to `file`.
    pub dump_policy: DumpPolicy,
    /// The time of the most recent successful dump, in milliseconds of the
    /// driver's monotonic clock; 0 until a first dump happens.
    pub last_dump: u64,
    /// The transport client; exclusively owned, neither shared nor cloned.
    pub client: TransportHandle,
}

impl Completion {
    /// Builds a session around a freshly configured transport client.
    pub fn new(api_key: &str, base_url: &str, ctx_path: &str, dump_policy: DumpPolicy) -> (s:
        Completion)
        ensures
            s.context@ == Seq::<String>::empty(),
            s.file@ == ctx_path@,
            s.dump_policy == dump_policy,
            s.last_dump == 0,
    {
        let config = transport::make_config(api_key, base_url, "CLI");
        let client = transport::client_with_config(config);
        let s = Completion {
            context: Vec::new(),
            file: ctx_path.to_owned(),
            dump_policy,
            last_dump: 0,
            client,
        };
        proof {
            assert(s.context@ =~= Seq::<String>::empty());
        }
        s
    }

    /// Appends one turn to the transcript. Nothing appends to the context but
    /// this; in particular a completion exchange by itself never does, the
    /// caller must opt in.
    pub fn append_context(&mut self, entry: String)
        ensures
            final(self).context@ == old(self).context@.push(entry),
            final(self).file == old(self).file,
            final(self).dump_policy == old(self).dump_policy,
            final(self).last_dump == old(self).last_dump,
            final(self).client == old(self).client,
    {
        self.context.push(entry);
    }

    /// Evaluates the dump policy on a triggering event. Returns the full
    /// serialized context exactly when the policy asks for a write now, and
    /// nothing otherwise; the session itself is untouched either way.
    pub fn on_trigger(&self, kind: TriggerKind, now: u64) -> (dump: Option<String>)
        ensures
            dump is Some <==> spec_should_dump(self.dump_policy, self.last_dump, kind, now),
            dump matches Some(text) ==> text@ == encode_lines(string_views(self.context@)),
    {
        if dump_due(&self.dump_policy, self.last_dump, kind, now) {
            Some(serialize_context(&self.context))
        } else {
            None
        }
    }

    /// Acknowledges a successful write of the context at time `now`. The
    /// driver calls this after, and only after, the write returned by
    /// `on_trigger` succeeded; a failed write is a `PersistenceError` and
    /// leaves `last_dump` where it was.
    pub fn record_dump(&mut self, now: u64)
        requires
            now >= old(self).last_dump,
        ensures
            final(self).last_dump == now,
            final(self).last_dump >= old(self).last_dump,
            final(self).context == old(self).context,
            final(self).file == old(self).file,
            final(self).dump_policy == old(self).dump_policy,
            final(self).client == old(self).client,
    {
        self.last_dump = now;
    }

    /// Assembles a streaming completion request: `stream` set, the given
    /// model and prompt (an empty prompt is passed through unmodified), and
    /// the resolved token cap (`DEFAULT_MAX_TOKENS` when none is given).
    /// Fails with `RequestBuildError`, and only with it, exactly when the
    /// model identifier is empty or the given cap is zero; the session is
    /// never touched.
    pub fn completion_request(&self, model: &str, prompt: &str, max_tokens: Option<u32>) -> (r:
        Result<CreateCompletionRequest, ChatError>)
        ensures
            r is Ok <==> (model@.len() > 0 && max_tokens != Some(0u32)),
            r matches Ok(q) ==> q == transport::request_of(
                model@,
                prompt@,
                match max_tokens {
                    Some(v) => v,
                    None => DEFAULT_MAX_TOKENS,
                },
            ),
            r matches Err(e) ==> e is RequestBuildError,
    {
        if model.is_empty() {
            return Err(
                ChatError::RequestBuildError(String::from_str("model identifier must not be empty")),
            );
        }
        let cap: u32 = match max_tokens {
            Some(v) => {
                if v == 0 {
                    return Err(
                        ChatError::RequestBuildError(
                            String::from_str("max_tokens must be positive"),
                        ),
                    );
                }
                v
            },
            None => DEFAULT_MAX_TOKENS,
        };
        match transport::build_request(model, prompt, cap) {
            Ok(request) => Ok(request),
            Err(error) => Err(ChatError::RequestBuildError(transport::openai_error_text(&error))),
        }
    }
}

} // verus!
