//! The streaming orchestration core.
//!
//! One [`StreamSession`] serves one `send_message` exchange.  The caller
//! performs the outside work — fetching credentials, issuing the HTTP POST,
//! awaiting body chunks, delivering notifications — and hands every
//! decision to this module: header construction, error-status
//! classification, folding chunks through the line splitter and the
//! provider's processor, and finalization.  The exchange moves through the
//! usual states (credentials resolved, request sent, streaming, completed
//! or failed); the session owns the streaming part, and stream end without
//! a terminal frame finalizes gracefully with whatever accumulated.

use vstd::prelude::*;

use crate::anthropic::{spec_line_step, spec_merged_usage, AnthropicStreamProcessor, ProcView};
use crate::cloudflare::{spec_cf_line_step, CfView, CloudflareStreamProcessor};
use crate::credentials::{AnthropicCredentials, CloudflareCredentials};
use crate::models::{spec_token_usage, StreamResponse};
use crate::registry::ProviderKind;
use crate::sse::{carry_of, lines_of, LineSplitter};

verus! {

/// Why a `send_message` exchange failed.
#[derive(Debug, Clone)]
pub enum SendError {
    /// Missing or unusable credentials, or an unsupported provider;
    /// surfaced before any network call.
    Configuration(String),
    /// The transport broke: connection failure, timeout, or an invalid
    /// byte sequence in a chunk.
    Transport(String),
    /// The provider answered with an error status; the payload is the full
    /// response body, verbatim.
    ProviderApi(String),
}

/// One incremental notification: the cumulative text so far and, when a
/// reasoning trace has started, the cumulative thinking text.
#[derive(Debug, Clone)]
pub struct Emission {
    pub text: String,
    pub thinking: Option<String>,
}

/// The accumulator matching the provider the session talks to.
#[derive(Debug, Clone)]
pub enum ProcessorKind {
    Anthropic(AnthropicStreamProcessor),
    Cloudflare(CloudflareStreamProcessor),
}

/// Whether an HTTP status is a client or server error; error responses are
/// never streamed, their body is read whole as diagnostic detail.
pub fn status_is_error(status: u16) -> (r: bool)
    ensures
        r == (400 <= status && status < 600),
{
    400 <= status && status < 600
}

/// The request headers of an Anthropic call: the API key, the pinned
/// protocol version, and the JSON content type.
pub fn anthropic_headers(credentials: &AnthropicCredentials) -> (r: Vec<(String, String)>)
    ensures
        r@.len() == 3,
        r@[0].0@ == "x-api-key"@ && r@[0].1@ == credentials.api_key@,
        r@[1].0@ == "anthropic-version"@ && r@[1].1@ == "2023-06-01"@,
        r@[2].0@ == "Content-Type"@ && r@[2].1@ == "application/json"@,
{
    let mut headers: Vec<(String, String)> = Vec::new();
    headers.push((String::from_str("x-api-key"), credentials.api_key.clone()));
    headers.push((String::from_str("anthropic-version"), String::from_str("2023-06-01")));
    headers.push((String::from_str("Content-Type"), String::from_str("application/json")));
    headers
}

/// The request headers of a Cloudflare call: a bearer token.
pub fn cloudflare_headers(credentials: &CloudflareCredentials) -> (r: Vec<(String, String)>)
    ensures
        r@.len() == 1,
        r@[0].0@ == "Authorization"@,
        r@[0].1@ == "Bearer "@ + credentials.api_token@,
{
    let mut value = String::from_str("Bearer ");
    value.append(credentials.api_token.as_str());
    let mut headers: Vec<(String, String)> = Vec::new();
    headers.push((String::from_str("Authorization"), value));
    headers
}

/// The accumulator state after running `lines` in order, stopping once
/// the terminal event has been seen: lines after the terminal frame are
/// not processed.
pub open spec fn spec_run_anthropic(v: ProcView, lines: Seq<Seq<char>>) -> ProcView
    decreases lines.len(),
{
    if lines.len() == 0 || v.complete {
        v
    } else {
        spec_run_anthropic(spec_line_step(v, lines.first()), lines.drop_first())
    }
}

/// The Cloudflare accumulator state after running `lines` in order,
/// stopping at the terminal sentinel.
pub open spec fn spec_run_cloudflare(v: CfView, lines: Seq<Seq<char>>) -> CfView
    decreases lines.len(),
{
    if lines.len() == 0 || v.complete {
        v
    } else {
        spec_run_cloudflare(spec_cf_line_step(v, lines.first()), lines.drop_first())
    }
}

/// The cumulative notifications of an Anthropic run: after every processed
/// line whose resulting text is non-empty, the text so far and the
/// thinking trace so far.
pub open spec fn spec_emissions_anthropic(v: ProcView, lines: Seq<Seq<char>>) -> Seq<
    (Seq<char>, Option<Seq<char>>),
>
    decreases lines.len(),
{
    if lines.len() == 0 || v.complete {
        Seq::empty()
    } else {
        let w = spec_line_step(v, lines.first());
        (if w.text.len() > 0 {
            seq![(w.text, w.thinking)]
        } else {
            Seq::empty()
        }) + spec_emissions_anthropic(w, lines.drop_first())
    }
}

/// The cumulative notifications of a Cloudflare run: after every processed
/// line whose resulting text is non-empty, the text so far (Cloudflare has
/// no thinking trace).
pub open spec fn spec_emissions_cloudflare(v: CfView, lines: Seq<Seq<char>>) -> Seq<
    (Seq<char>, Option<Seq<char>>),
>
    decreases lines.len(),
{
    if lines.len() == 0 || v.complete {
        Seq::empty()
    } else {
        let w = spec_cf_line_step(v, lines.first());
        (if w.text.len() > 0 {
            seq![(w.text, None)]
        } else {
            Seq::empty()
        }) + spec_emissions_cloudflare(w, lines.drop_first())
    }
}

/// Running lines distributes over concatenation: feeding two line lists
/// in turn drives the accumulator exactly as feeding their concatenation.
pub proof fn lemma_run_anthropic_concat(v: ProcView, l1: Seq<Seq<char>>, l2: Seq<Seq<char>>)
    ensures
        spec_run_anthropic(v, l1 + l2) == spec_run_anthropic(spec_run_anthropic(v, l1), l2),
    decreases l1.len(),
{
    if l1.len() == 0 {
        assert(l1 + l2 =~= l2);
    } else if v.complete {
    } else {
        assert((l1 + l2).first() == l1.first());
        assert((l1 + l2).drop_first() =~= l1.drop_first() + l2);
        lemma_run_anthropic_concat(spec_line_step(v, l1.first()), l1.drop_first(), l2);
    }
}

/// The Cloudflare counterpart of [`lemma_run_anthropic_concat`].
pub proof fn lemma_run_cloudflare_concat(v: CfView, l1: Seq<Seq<char>>, l2: Seq<Seq<char>>)
    ensures
        spec_run_cloudflare(v, l1 + l2) == spec_run_cloudflare(spec_run_cloudflare(v, l1), l2),
    decreases l1.len(),
{
    if l1.len() == 0 {
        assert(l1 + l2 =~= l2);
    } else if v.complete {
    } else {
        assert((l1 + l2).first() == l1.first());
        assert((l1 + l2).drop_first() =~= l1.drop_first() + l2);
        lemma_run_cloudflare_concat(spec_cf_line_step(v, l1.first()), l1.drop_first(), l2);
    }
}

/// Notifications distribute over concatenation the same way.
pub proof fn lemma_emissions_anthropic_concat(v: ProcView, l1: Seq<Seq<char>>, l2: Seq<Seq<char>>)
    ensures
        spec_emissions_anthropic(v, l1 + l2) == spec_emissions_anthropic(v, l1)
            + spec_emissions_anthropic(spec_run_anthropic(v, l1), l2),
    decreases l1.len(),
{
    if l1.len() == 0 {
        assert(l1 + l2 =~= l2);
        assert(spec_emissions_anthropic(v, l1) + spec_emissions_anthropic(v, l2)
            =~= spec_emissions_anthropic(v, l2));
    } else if v.complete {
        assert(spec_emissions_anthropic(v, l1) + spec_emissions_anthropic(
            spec_run_anthropic(v, l1),
            l2,
        ) =~= spec_emissions_anthropic(v, l1 + l2));
    } else {
        assert((l1 + l2).first() == l1.first());
        assert((l1 + l2).drop_first() =~= l1.drop_first() + l2);
        let w = spec_line_step(v, l1.first());
        lemma_emissions_anthropic_concat(w, l1.drop_first(), l2);
        assert(spec_emissions_anthropic(v, l1 + l2) =~= spec_emissions_anthropic(v, l1)
            + spec_emissions_anthropic(spec_run_anthropic(v, l1), l2));
    }
}

/// The Cloudflare counterpart of [`lemma_emissions_anthropic_concat`].
pub proof fn lemma_emissions_cloudflare_concat(v: CfView, l1: Seq<Seq<char>>, l2: Seq<Seq<char>>)
    ensures
        spec_emissions_cloudflare(v, l1 + l2) == spec_emissions_cloudflare(v, l1)
            + spec_emissions_cloudflare(spec_run_cloudflare(v, l1), l2),
    decreases l1.len(),
{
    if l1.len() == 0 {
        assert(l1 + l2 =~= l2);
        assert(spec_emissions_cloudflare(v, l1) + spec_emissions_cloudflare(v, l2)
            =~= spec_emissions_cloudflare(v, l2));
    } else if v.complete {
        assert(spec_emissions_cloudflare(v, l1) + spec_emissions_cloudflare(
            spec_run_cloudflare(v, l1),
            l2,
        ) =~= spec_emissions_cloudflare(v, l1 + l2));
    } else {
        assert((l1 + l2).first() == l1.first());
        assert((l1 + l2).drop_first() =~= l1.drop_first() + l2);
        let w = spec_cf_line_step(v, l1.first());
        lemma_emissions_cloudflare_concat(w, l1.drop_first(), l2);
        assert(spec_emissions_cloudflare(v, l1 + l2) =~= spec_emissions_cloudflare(v, l1)
            + spec_emissions_cloudflare(spec_run_cloudflare(v, l1), l2));
    }
}

/// Pipeline chunking-insensitivity: feeding a stream in two pieces drives
/// the accumulator state and the notifications exactly as feeding it
/// whole — where the pieces fall does not matter.  Together with
/// [`crate::sse::lemma_chunks_lines`], this extends to any chunking.
pub proof fn lemma_pipeline_split_anthropic(
    v: ProcView,
    buffered: Seq<char>,
    c1: Seq<char>,
    c2: Seq<char>,
)
    ensures
        spec_run_anthropic(
            spec_run_anthropic(v, lines_of(c1, buffered)),
            lines_of(c2, carry_of(c1, buffered)),
        ) == spec_run_anthropic(v, lines_of(c1 + c2, buffered)),
        spec_emissions_anthropic(v, lines_of(c1, buffered)) + spec_emissions_anthropic(
            spec_run_anthropic(v, lines_of(c1, buffered)),
            lines_of(c2, carry_of(c1, buffered)),
        ) == spec_emissions_anthropic(v, lines_of(c1 + c2, buffered)),
{
    crate::sse::lemma_lines_concat(c1, c2, buffered);
    lemma_run_anthropic_concat(
        v,
        lines_of(c1, buffered),
        lines_of(c2, carry_of(c1, buffered)),
    );
    lemma_emissions_anthropic_concat(
        v,
        lines_of(c1, buffered),
        lines_of(c2, carry_of(c1, buffered)),
    );
}

/// The Cloudflare counterpart of [`lemma_pipeline_split_anthropic`].
pub proof fn lemma_pipeline_split_cloudflare(
    v: CfView,
    buffered: Seq<char>,
    c1: Seq<char>,
    c2: Seq<char>,
)
    ensures
        spec_run_cloudflare(
            spec_run_cloudflare(v, lines_of(c1, buffered)),
            lines_of(c2, carry_of(c1, buffered)),
        ) == spec_run_cloudflare(v, lines_of(c1 + c2, buffered)),
        spec_emissions_cloudflare(v, lines_of(c1, buffered)) + spec_emissions_cloudflare(
            spec_run_cloudflare(v, lines_of(c1, buffered)),
            lines_of(c2, carry_of(c1, buffered)),
        ) == spec_emissions_cloudflare(v, lines_of(c1 + c2, buffered)),
{
    crate::sse::lemma_lines_concat(c1, c2, buffered);
    lemma_run_cloudflare_concat(
        v,
        lines_of(c1, buffered),
        lines_of(c2, carry_of(c1, buffered)),
    );
    lemma_emissions_cloudflare_concat(
        v,
        lines_of(c1, buffered),
        lines_of(c2, carry_of(c1, buffered)),
    );
}

/// What a notification shows: the cumulative text and thinking views.
pub open spec fn spec_emission_view(e: Emission) -> (Seq<char>, Option<Seq<char>>) {
    (
        e.text@,
        match e.thinking {
            Some(t) => Some(t@),
            None => None,
        },
    )
}

/// The accumulator state after the end-of-stream flush: a non-blank
/// leftover partial line is processed as one final line (unless the
/// stream already completed), anything else is discarded.
pub open spec fn spec_flush_anthropic(v: ProcView, buffered: Seq<char>) -> ProcView {
    if v.complete || crate::strutil::trimmed(buffered).len() == 0 {
        v
    } else {
        spec_line_step(v, crate::strutil::trimmed(buffered))
    }
}

/// The Cloudflare accumulator state after the end-of-stream flush.
pub open spec fn spec_flush_cloudflare(v: CfView, buffered: Seq<char>) -> CfView {
    if v.complete || crate::strutil::trimmed(buffered).len() == 0 {
        v
    } else {
        spec_cf_line_step(v, crate::strutil::trimmed(buffered))
    }
}

/// The streaming state of one in-flight exchange: the line splitter and
/// the provider's accumulator.  Owned by exactly one exchange and
/// discarded with it.
pub struct StreamSession {
    splitter: LineSplitter,
    processor: ProcessorKind,
}

impl StreamSession {
    /// The partial line buffered between chunks.
    pub closed spec fn buffered(&self) -> Seq<char> {
        self.splitter@
    }

    /// Whether the session accumulates in Anthropic shape.
    pub closed spec fn is_anthropic(&self) -> bool {
        self.processor is Anthropic
    }

    /// The Anthropic accumulator state (meaningful only for an Anthropic
    /// session).
    pub closed spec fn anthropic_state(&self) -> ProcView {
        match self.processor {
            ProcessorKind::Anthropic(p) => p@,
            ProcessorKind::Cloudflare(_) => arbitrary(),
        }
    }

    /// The Cloudflare accumulator state (meaningful only for a Cloudflare
    /// session).
    pub closed spec fn cloudflare_state(&self) -> CfView {
        match self.processor {
            ProcessorKind::Cloudflare(p) => p@,
            ProcessorKind::Anthropic(_) => arbitrary(),
        }
    }

    /// The accumulated answer text.
    pub open spec fn text(&self) -> Seq<char> {
        if self.is_anthropic() {
            self.anthropic_state().text
        } else {
            self.cloudflare_state().text
        }
    }

    /// Whether the terminal event has been seen.
    pub open spec fn complete(&self) -> bool {
        if self.is_anthropic() {
            self.anthropic_state().complete
        } else {
            self.cloudflare_state().complete
        }
    }

    /// A fresh session for the resolved provider.
    pub fn start(provider: &ProviderKind) -> (s: Self)
        ensures
            s.buffered() == Seq::<char>::empty(),
            s.text() == Seq::<char>::empty(),
            !s.complete(),
            s.is_anthropic() == (*provider is Anthropic),
            s.is_anthropic() ==> s.anthropic_state() == (ProcView {
                text: Seq::<char>::empty(),
                thinking: None,
                complete: false,
                usage: None,
                last_output_tokens: None,
                started: Seq::<u64>::empty(),
            }),
            !s.is_anthropic() ==> s.cloudflare_state() == (CfView {
                text: Seq::<char>::empty(),
                usage: None,
                complete: false,
            }),
    {
        let processor = match provider {
            ProviderKind::Anthropic(_) => ProcessorKind::Anthropic(AnthropicStreamProcessor::new()),
            ProviderKind::Cloudflare(_) => ProcessorKind::Cloudflare(
                CloudflareStreamProcessor::new(),
            ),
        };
        let s = StreamSession { splitter: LineSplitter::new(), processor };
        proof {
            if s.is_anthropic() {
                assert(s.anthropic_state() =~= ProcView {
                    text: Seq::<char>::empty(),
                    thinking: None,
                    complete: false,
                    usage: None,
                    last_output_tokens: None,
                    started: Seq::<u64>::empty(),
                });
            } else {
                assert(s.cloudflare_state() =~= CfView {
                    text: Seq::<char>::empty(),
                    usage: None,
                    complete: false,
                });
            }
        }
        s
    }

    /// Feeds one body chunk: the lines it completes run through the
    /// provider's processor in order — stopping at the terminal event —
    /// and after each processed line the cumulative state is reported as
    /// one emission when there is any text to show.  Returns the emissions
    /// and whether the terminal event has been seen.
    pub fn push_chunk(&mut self, chunk: &str) -> (r: (Vec<Emission>, bool))
        ensures
            final(self).buffered() == carry_of(chunk@, old(self).buffered()),
            final(self).is_anthropic() == old(self).is_anthropic(),
            r.1 == final(self).complete(),
            old(self).is_anthropic() ==> final(self).anthropic_state() == spec_run_anthropic(
                old(self).anthropic_state(),
                lines_of(chunk@, old(self).buffered()),
            ),
            old(self).is_anthropic() ==> r.0@.map_values(
                |e: Emission| spec_emission_view(e),
            ) == spec_emissions_anthropic(
                old(self).anthropic_state(),
                lines_of(chunk@, old(self).buffered()),
            ),
            !old(self).is_anthropic() ==> final(self).cloudflare_state() == spec_run_cloudflare(
                old(self).cloudflare_state(),
                lines_of(chunk@, old(self).buffered()),
            ),
            !old(self).is_anthropic() ==> r.0@.map_values(
                |e: Emission| spec_emission_view(e),
            ) == spec_emissions_cloudflare(
                old(self).cloudflare_state(),
                lines_of(chunk@, old(self).buffered()),
            ),
    {
        let lines = self.splitter.feed(chunk);
        let ghost line_views = lines@.map_values(|l: String| l@);
        let ghost anth = self.is_anthropic();
        let ghost carry = self.splitter@;
        let ghost a0 = self.anthropic_state();
        let ghost c0 = self.cloudflare_state();
        let mut emissions: Vec<Emission> = Vec::new();
        let mut done = match &self.processor {
            ProcessorKind::Anthropic(p) => p.is_complete(),
            ProcessorKind::Cloudflare(p) => p.is_complete(),
        };
        let mut i: usize = 0;
        proof {
            assert(line_views.skip(0) =~= line_views);
            assert(emissions@.map_values(|e: Emission| spec_emission_view(e))
                =~= Seq::<(Seq<char>, Option<Seq<char>>)>::empty());
            assert(Seq::<(Seq<char>, Option<Seq<char>>)>::empty() + spec_emissions_anthropic(
                a0,
                line_views,
            ) =~= spec_emissions_anthropic(a0, line_views));
            assert(Seq::<(Seq<char>, Option<Seq<char>>)>::empty() + spec_emissions_cloudflare(
                c0,
                line_views,
            ) =~= spec_emissions_cloudflare(c0, line_views));
        }
        while i < lines.len() && !done
            invariant
                i <= lines.len(),
                line_views == lines@.map_values(|l: String| l@),
                self.splitter@ == carry,
                self.is_anthropic() == anth,
                done == self.complete(),
                anth ==> spec_run_anthropic(a0, line_views) == spec_run_anthropic(
                    self.anthropic_state(),
                    line_views.skip(i as int),
                ),
                anth ==> spec_emissions_anthropic(a0, line_views) == emissions@.map_values(
                    |e: Emission| spec_emission_view(e),
                ) + spec_emissions_anthropic(
                    self.anthropic_state(),
                    line_views.skip(i as int),
                ),
                !anth ==> spec_run_cloudflare(c0, line_views) == spec_run_cloudflare(
                    self.cloudflare_state(),
                    line_views.skip(i as int),
                ),
                !anth ==> spec_emissions_cloudflare(c0, line_views) == emissions@.map_values(
                    |e: Emission| spec_emission_view(e),
                ) + spec_emissions_cloudflare(
                    self.cloudflare_state(),
                    line_views.skip(i as int),
                ),
            decreases lines.len() - i,
        {
            proof {
                assert(line_views.skip(i as int).first() == line_views[i as int]);
                assert(line_views[i as int] == lines@[i as int]@);
                assert(line_views.skip(i as int).drop_first() =~= line_views.skip(i as int + 1));
            }
            let ghost emitted_pre = emissions@;
            match &mut self.processor {
                ProcessorKind::Anthropic(p) => {
                    let result = p.process_sse_line(lines[i].as_str());
                    done = match result {
                        Ok(d) => d,
                        Err(_) => false,
                    };
                    let current = p.get_text_content();
                    if current.as_str().unicode_len() > 0 {
                        emissions.push(
                            Emission { text: current, thinking: p.get_thinking_content() },
                        );
                    }
                },
                ProcessorKind::Cloudflare(p) => {
                    done = p.process_line(lines[i].as_str());
                    let current = p.text_so_far();
                    if current.as_str().unicode_len() > 0 {
                        emissions.push(Emission { text: current, thinking: None });
                    }
                },
            }
            proof {
                if anth {
                    assert(emissions@.map_values(|e: Emission| spec_emission_view(e))
                        =~= emitted_pre.map_values(|e: Emission| spec_emission_view(e))
                        + (if self.anthropic_state().text.len() > 0 {
                        seq![(self.anthropic_state().text, self.anthropic_state().thinking)]
                    } else {
                        Seq::<(Seq<char>, Option<Seq<char>>)>::empty()
                    }));
                } else {
                    assert(emissions@.map_values(|e: Emission| spec_emission_view(e))
                        =~= emitted_pre.map_values(|e: Emission| spec_emission_view(e))
                        + (if self.cloudflare_state().text.len() > 0 {
                        seq![(self.cloudflare_state().text, None::<Seq<char>>)]
                    } else {
                        Seq::<(Seq<char>, Option<Seq<char>>)>::empty()
                    }));
                }
            }
            i += 1;
        }
        proof {
            if i < lines.len() {
                // Stopped at the terminal event: the remaining lines are not
                // processed, and the fold is a fixpoint there.
                assert(line_views.skip(i as int).len() > 0);
            } else {
                assert(line_views.skip(i as int) =~= Seq::<Seq<char>>::empty());
            }
        }
        (emissions, done)
    }

    /// Ends the stream: a non-blank buffered partial line is flushed and
    /// processed as one final line (providers do not always end with a
    /// newline), and the accumulated state becomes the unified response.
    /// Reaching the end without a terminal frame is graceful degradation,
    /// not an error.
    pub fn finish(&mut self) -> (r: StreamResponse)
        ensures
            final(self).buffered() == Seq::<char>::empty(),
            final(self).is_anthropic() == old(self).is_anthropic(),
            old(self).is_anthropic() ==> final(self).anthropic_state() == spec_flush_anthropic(
                old(self).anthropic_state(),
                old(self).buffered(),
            ),
            !old(self).is_anthropic() ==> final(self).cloudflare_state()
                == spec_flush_cloudflare(old(self).cloudflare_state(), old(self).buffered()),
            r.response@ == final(self).text(),
            old(self).is_anthropic() ==> (match spec_merged_usage(
                final(self).anthropic_state().usage,
                final(self).anthropic_state().last_output_tokens,
            ) {
                Some(u) => r.usage == Some(spec_token_usage(u.input_tokens, u.output_tokens)),
                None => r.usage is None,
            }),
            !old(self).is_anthropic() ==> (match final(self).cloudflare_state().usage {
                Some(u) => r.usage == Some(
                    spec_token_usage(u.prompt_tokens, u.completion_tokens),
                ),
                None => r.usage is None,
            }),
            r.usage matches Some(u) ==> u.well_formed(),
            old(self).is_anthropic() ==> (match final(self).anthropic_state().thinking {
                Some(t) => if t.len() > 0 {
                    r.thinking matches Some(s) && s@ == t
                } else {
                    r.thinking is None
                },
                None => r.thinking is None,
            }),
            !old(self).is_anthropic() ==> r.thinking is None,
            r.thinking matches Some(t) ==> t@.len() > 0,
    {
        let done = match &self.processor {
            ProcessorKind::Anthropic(p) => p.is_complete(),
            ProcessorKind::Cloudflare(p) => p.is_complete(),
        };
        let last = self.splitter.finish();
        if let Some(line) = last {
            if !done {
                match &mut self.processor {
                    ProcessorKind::Anthropic(p) => {
                        let _ = p.process_sse_line(line.as_str());
                    },
                    ProcessorKind::Cloudflare(p) => {
                        let _ = p.process_line(line.as_str());
                    },
                }
            }
        }
        match &self.processor {
            ProcessorKind::Anthropic(p) => p.finalize(),
            ProcessorKind::Cloudflare(p) => p.finalize(),
        }
    }
}

} // verus!
