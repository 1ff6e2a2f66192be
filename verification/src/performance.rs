//! Performance and retry options: thread counts, bandwidth and offload
//! knobs, and the retry flags that are forwarded to the tool.

use vstd::prelude::*;
use crate::numfmt::{push_decimal, spec_decimal};

verus! {

/// Only one performance choice can be chosen.
#[derive(Debug, PartialEq, Clone, Copy)]
pub enum PerformanceChoice {
    /// Multi-threaded copying with the given thread count, which is clamped
    /// into the documented range at serialization time; an unspecified
    /// count serializes to the documented default of eight.
    /// Corresponds to the `/mt` option.
    Threads(Option<u8>),
    /// The inter-packet gap, to free bandwidth on slow lines.
    /// Corresponds to the `/ipg` option.
    InterPacketGap(usize),
}

impl PerformanceChoice {
    /// The serialized thread count: the default of eight when none is
    /// given, otherwise the count clamped into one to one hundred and
    /// twenty-eight.
    pub open spec fn spec_thread_value(t: Option<u8>) -> nat {
        match t {
            None => 8,
            Some(n) => if n < 1 {
                1
            } else if n > 128 {
                128
            } else {
                n as nat
            },
        }
    }

    /// The token this choice serializes to.
    pub open spec fn spec_token(self) -> Seq<char> {
        match self {
            PerformanceChoice::Threads(t) => "/mt:"@ + spec_decimal(
                PerformanceChoice::spec_thread_value(t),
            ),
            PerformanceChoice::InterPacketGap(g) => "/ipg:"@ + spec_decimal(g as nat),
        }
    }

    /// Renders the token for this choice; a thread count is clamped here,
    /// never rejected.
    pub fn to_token(&self) -> (r: String)
        ensures
            r@ == self.spec_token(),
    {
        match self {
            PerformanceChoice::Threads(t) => {
                let n: u8 = match t {
                    Some(n) => if *n < 1 {
                        1
                    } else if *n > 128 {
                        128
                    } else {
                        *n
                    },
                    None => 8,
                };
                let mut s = String::from_str("/mt:");
                push_decimal(&mut s, n as u128);
                s
            },
            PerformanceChoice::InterPacketGap(g) => {
                let mut s = String::from_str("/ipg:");
                push_decimal(&mut s, *g as u128);
                s
            },
        }
    }
}

/// Enables performance options.
#[derive(Debug, Clone, Copy)]
pub struct PerformanceOptions {
    /// Enables multithreading or an inter-packet gap.
    pub performance_choice: Option<PerformanceChoice>,
    /// Copies files without the platform's copy-offload mechanism.
    /// Corresponds to the `/nooffload` option.
    pub dont_offload: bool,
    /// Requests network compression during transfer, if applicable.
    /// Corresponds to the `/compress` option.
    pub request_network_compression: bool,
    /// Copies symbolic links as links instead of following them.
    /// Corresponds to the `/sl` option.
    pub copy_rather_than_follow_link: bool,
}

impl PerformanceOptions {
    /// The tokens these options serialize to, in declaration order.
    pub open spec fn spec_tokens(self) -> Seq<Seq<char>> {
        let r = Seq::<Seq<char>>::empty();
        let r = match self.performance_choice {
            Some(c) => r.push(c.spec_token()),
            None => r,
        };
        let r = if self.dont_offload { r.push("/nooffload"@) } else { r };
        let r = if self.request_network_compression { r.push("/compress"@) } else { r };
        let r = if self.copy_rather_than_follow_link { r.push("/sl"@) } else { r };
        r
    }

    /// Renders the tokens for these options, in declaration order.
    pub fn to_tokens(&self) -> (r: Vec<String>)
        ensures
            r.deep_view() == self.spec_tokens(),
    {
        let mut r: Vec<String> = Vec::new();
        if let Some(c) = &self.performance_choice {
            r.push(c.to_token());
        }
        if self.dont_offload {
            r.push(String::from_str("/nooffload"));
        }
        if self.request_network_compression {
            r.push(String::from_str("/compress"));
        }
        if self.copy_rather_than_follow_link {
            r.push(String::from_str("/sl"));
        }
        proof {
            assert(r.deep_view() =~= self.spec_tokens());
        }
        r
    }
}

/// The retry options: all of them are forwarded to the tool, which does the
/// retrying itself.
#[derive(Debug, Clone, Copy)]
pub struct RetrySettings {
    /// The number of retries on failed copies. An absent outer value emits
    /// no token at all; a present outer value with no inner number emits
    /// the flag with an empty trailing value, which tells the tool to use
    /// its own default. Corresponds to the `/r` option.
    pub specify_retries_failed_copies: Option<Option<usize>>,
    /// The wait between retries, in seconds, with the same two-level
    /// treatment. Corresponds to the `/w` option.
    pub specify_wait_between_retries: Option<Option<usize>>,
    /// Saves the retry values as defaults in the registry.
    /// Corresponds to the `/reg` option.
    pub save_specifications: bool,
    /// Waits for share names to be defined. Corresponds to the `/tbd`
    /// option.
    pub await_share_names_def: bool,
}

impl RetrySettings {
    /// The settings with nothing set.
    pub open spec fn spec_default() -> RetrySettings {
        RetrySettings {
            specify_retries_failed_copies: None,
            specify_wait_between_retries: None,
            save_specifications: false,
            await_share_names_def: false,
        }
    }

    /// The tokens these settings serialize to, in declaration order. An
    /// absent field contributes no token; a field present with no explicit
    /// number contributes its flag with an empty trailing value.
    pub open spec fn spec_tokens(self) -> Seq<Seq<char>> {
        let r = Seq::<Seq<char>>::empty();
        let r = match self.specify_retries_failed_copies {
            Some(Some(n)) => r.push("/r:"@ + spec_decimal(n as nat)),
            Some(None) => r.push("/r:"@),
            None => r,
        };
        let r = match self.specify_wait_between_retries {
            Some(Some(n)) => r.push("/w:"@ + spec_decimal(n as nat)),
            Some(None) => r.push("/w:"@),
            None => r,
        };
        let r = if self.save_specifications { r.push("/reg"@) } else { r };
        let r = if self.await_share_names_def { r.push("/tbd"@) } else { r };
        r
    }

    /// Renders the tokens for these settings, in declaration order.
    pub fn to_tokens(&self) -> (r: Vec<String>)
        ensures
            r.deep_view() == self.spec_tokens(),
    {
        let mut r: Vec<String> = Vec::new();
        match self.specify_retries_failed_copies {
            Some(Some(n)) => {
                let mut s = String::from_str("/r:");
                push_decimal(&mut s, n as u128);
                r.push(s);
            },
            Some(None) => {
                r.push(String::from_str("/r:"));
            },
            None => {},
        }
        match self.specify_wait_between_retries {
            Some(Some(n)) => {
                let mut s = String::from_str("/w:");
                push_decimal(&mut s, n as u128);
                r.push(s);
            },
            Some(None) => {
                r.push(String::from_str("/w:"));
            },
            None => {},
        }
        if self.save_specifications {
            r.push(String::from_str("/reg"));
        }
        if self.await_share_names_def {
            r.push(String::from_str("/tbd"));
        }
        proof {
            assert(r.deep_view() =~= self.spec_tokens());
        }
        r
    }
}

impl Default for RetrySettings {
    /// The settings with nothing set.
    fn default() -> (r: RetrySettings)
        ensures
            r == RetrySettings::spec_default(),
    {
        RetrySettings {
            specify_retries_failed_copies: None,
            specify_wait_between_retries: None,
            save_specifications: false,
            await_share_names_def: false,
        }
    }
}

} // verus!
