//! Logging options: what the tool reports, where it writes its log, and in
//! what form.

use vstd::prelude::*;

verus! {

/// Log file settings.
#[derive(Debug, Clone)]
pub struct LogFileSettings {
    /// The path of the log file.
    pub log: String,
    /// Writes the log as unicode text: `false` corresponds to the `/log`
    /// option and `true` to the `/unilog` option.
    pub unicode: bool,
    /// Appends to an existing log file instead of overwriting it.
    pub append: bool,
}

impl LogFileSettings {
    /// The token these settings serialize to: the flag spelling carries
    /// the unicode and append choices, and the path follows the colon.
    pub open spec fn spec_token(self) -> Seq<char> {
        let r = "/"@;
        let r = if self.unicode { r + "uni"@ } else { r };
        let r = r + "log"@;
        let r = if self.append { r + "+"@ } else { r };
        let r = r + ":"@;
        let r = r + self.log@;
        r
    }

    /// Renders the token for these settings.
    pub fn to_token(&self) -> (r: String)
        ensures
            r@ == self.spec_token(),
    {
        let mut r = String::from_str("/");
        if self.unicode {
            r.append("uni");
        }
        r.append("log");
        if self.append {
            r.append("+");
        }
        r.append(":");
        r.append(self.log.as_str());
        r
    }
}

/// Specifies the logging options.
#[derive(Debug, Clone)]
pub struct LoggingOptions {
    /// Lists files only, without copying, deleting or time stamping.
    /// Corresponds to the `/l` option.
    pub only_log: bool,
    /// Reports all extra files, not just the selected ones.
    /// Corresponds to the `/x` option.
    pub report_extra: bool,
    /// Produces verbose output, showing all skipped files.
    /// Corresponds to the `/v` option.
    pub verbose: bool,
    /// Includes source file time stamps in the output.
    /// Corresponds to the `/ts` option.
    pub time_stamps: bool,
    /// Includes the full path names of the files in the output.
    /// Corresponds to the `/fp` option.
    pub full_path_names: bool,
    /// Prints sizes as bytes. Corresponds to the `/bytes` option.
    pub sizes_bytes: bool,
    /// Does not log file sizes. Corresponds to the `/ns` option.
    pub dont_log_size: bool,
    /// Does not log file classes. Corresponds to the `/nc` option.
    pub dont_log_class: bool,
    /// Does not log file names. Corresponds to the `/nfl` option.
    pub dont_log_file_names: bool,
    /// Does not log directory names. Corresponds to the `/ndl` option.
    pub dont_log_dir_names: bool,
    /// Does not display the progress of the copying operation.
    /// Corresponds to the `/np` option.
    pub no_progress_display: bool,
    /// Shows the estimated time of arrival of the copied files.
    /// Corresponds to the `/eta` option.
    pub show_estimated_time_of_arrival: bool,
    /// Writes the status output to a log file.
    pub log_file: Option<LogFileSettings>,
    /// Writes the status output to the console window and to the log file.
    /// Corresponds to the `/tee` option.
    pub combination_log: bool,
    /// Omits the job header. Corresponds to the `/njh` option.
    pub dont_log_header: bool,
    /// Omits the job summary. Corresponds to the `/njs` option.
    pub dont_log_summary: bool,
    /// Displays the status output as unicode text.
    /// Corresponds to the `/unicode` option.
    pub unicode: bool,
}

impl LoggingOptions {
    /// The options with nothing set.
    pub open spec fn spec_default() -> LoggingOptions {
        LoggingOptions {
            only_log: false,
            report_extra: false,
            verbose: false,
            time_stamps: false,
            full_path_names: false,
            sizes_bytes: false,
            dont_log_size: false,
            dont_log_class: false,
            dont_log_file_names: false,
            dont_log_dir_names: false,
            no_progress_display: false,
            show_estimated_time_of_arrival: false,
            log_file: None,
            combination_log: false,
            dont_log_header: false,
            dont_log_summary: false,
            unicode: false,
        }
    }

    /// The reporting tokens: what is listed and how much of it.
    pub open spec fn report_tokens(self) -> Seq<Seq<char>> {
        let r = Seq::<Seq<char>>::empty();
        let r = if self.only_log { r.push("/l"@) } else { r };
        let r = if self.report_extra { r.push("/x"@) } else { r };
        let r = if self.verbose { r.push("/v"@) } else { r };
        let r = if self.time_stamps { r.push("/ts"@) } else { r };
        let r = if self.full_path_names { r.push("/fp"@) } else { r };
        let r = if self.sizes_bytes { r.push("/bytes"@) } else { r };
        r
    }

    /// The suppression tokens: what is left out of the log.
    pub open spec fn suppression_tokens(self) -> Seq<Seq<char>> {
        let r = Seq::<Seq<char>>::empty();
        let r = if self.dont_log_size { r.push("/ns"@) } else { r };
        let r = if self.dont_log_class { r.push("/nc"@) } else { r };
        let r = if self.dont_log_file_names { r.push("/nfl"@) } else { r };
        let r = if self.dont_log_dir_names { r.push("/ndl"@) } else { r };
        let r = if self.no_progress_display { r.push("/np"@) } else { r };
        let r = if self.show_estimated_time_of_arrival { r.push("/eta"@) } else { r };
        r
    }

    /// The destination tokens: the log file and the output form.
    pub open spec fn destination_tokens(self) -> Seq<Seq<char>> {
        let r = Seq::<Seq<char>>::empty();
        let r = match self.log_file {
            Some(s) => r.push(s.spec_token()),
            None => r,
        };
        let r = if self.combination_log { r.push("/tee"@) } else { r };
        let r = if self.dont_log_header { r.push("/njh"@) } else { r };
        let r = if self.dont_log_summary { r.push("/njs"@) } else { r };
        let r = if self.unicode { r.push("/unicode"@) } else { r };
        r
    }

    /// The tokens these options serialize to, in declaration order.
    pub open spec fn spec_tokens(self) -> Seq<Seq<char>> {
        self.report_tokens() + self.suppression_tokens() + self.destination_tokens()
    }

    /// Appends the reporting tokens.
    fn push_report_tokens(&self, r: &mut Vec<String>)
        ensures
            final(r).deep_view() == old(r).deep_view() + self.report_tokens(),
    {
        let ghost g0 = r.deep_view();
        if self.only_log {
            r.push(String::from_str("/l"));
        }
        if self.report_extra {
            r.push(String::from_str("/x"));
        }
        if self.verbose {
            r.push(String::from_str("/v"));
        }
        if self.time_stamps {
            r.push(String::from_str("/ts"));
        }
        if self.full_path_names {
            r.push(String::from_str("/fp"));
        }
        if self.sizes_bytes {
            r.push(String::from_str("/bytes"));
        }
        proof {
            assert(r.deep_view() =~= g0 + self.report_tokens());
        }
    }

    /// Appends the suppression tokens.
    fn push_suppression_tokens(&self, r: &mut Vec<String>)
        ensures
            final(r).deep_view() == old(r).deep_view() + self.suppression_tokens(),
    {
        let ghost g0 = r.deep_view();
        if self.dont_log_size {
            r.push(String::from_str("/ns"));
        }
        if self.dont_log_class {
            r.push(String::from_str("/nc"));
        }
        if self.dont_log_file_names {
            r.push(String::from_str("/nfl"));
        }
        if self.dont_log_dir_names {
            r.push(String::from_str("/ndl"));
        }
        if self.no_progress_display {
            r.push(String::from_str("/np"));
        }
        if self.show_estimated_time_of_arrival {
            r.push(String::from_str("/eta"));
        }
        proof {
            assert(r.deep_view() =~= g0 + self.suppression_tokens());
        }
    }

    /// Appends the destination tokens.
    fn push_destination_tokens(&self, r: &mut Vec<String>)
        ensures
            final(r).deep_view() == old(r).deep_view() + self.destination_tokens(),
    {
        let ghost g0 = r.deep_view();
        if let Some(s) = &self.log_file {
            r.push(s.to_token());
        }
        if self.combination_log {
            r.push(String::from_str("/tee"));
        }
        if self.dont_log_header {
            r.push(String::from_str("/njh"));
        }
        if self.dont_log_summary {
            r.push(String::from_str("/njs"));
        }
        if self.unicode {
            r.push(String::from_str("/unicode"));
        }
        proof {
            assert(r.deep_view() =~= g0 + self.destination_tokens());
        }
    }

    /// Renders the tokens for these options, in declaration order.
    pub fn to_tokens(&self) -> (r: Vec<String>)
        ensures
            r.deep_view() == self.spec_tokens(),
    {
        let mut r: Vec<String> = Vec::new();
        self.push_report_tokens(&mut r);
        self.push_suppression_tokens(&mut r);
        self.push_destination_tokens(&mut r);
        proof {
            assert(r.deep_view() =~= self.spec_tokens());
        }
        r
    }
}

impl Default for LoggingOptions {
    /// The options with nothing set.
    fn default() -> (r: LoggingOptions)
        ensures
            r == LoggingOptions::spec_default(),
    {
        LoggingOptions {
            only_log: false,
            report_extra: false,
            verbose: false,
            time_stamps: false,
            full_path_names: false,
            sizes_bytes: false,
            dont_log_size: false,
            dont_log_class: false,
            dont_log_file_names: false,
            dont_log_dir_names: false,
            no_progress_display: false,
            show_estimated_time_of_arrival: false,
            log_file: None,
            combination_log: false,
            dont_log_header: false,
            dont_log_summary: false,
            unicode: false,
        }
    }
}

} // verus!
