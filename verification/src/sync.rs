//! One sync run of a profile: the command line for the transfer tool, and
//! what its output says of the run.

use crate::config::{effective_policy, ConflictResolution, NasConfig, SyncProfile, SyncType};
use crate::conflict::{state_file_below, ConflictResolver};
use crate::error::{SyncError, SyncErrorView};
use crate::lists::{lemma_filter_step, texts_of};
use crate::store::RecordView;
use crate::text::{
    chars_of,
    contains_in,
    decimal,
    is_substring,
    parse_u64,
    parse_u64_spec,
    push_decimal,
    run_length,
    scan,
    CharClass,
};
use vstd::prelude::*;

verus! {

// ---------------------------------------------------------------------------
// Statistics
// ---------------------------------------------------------------------------

/// What a run has moved and met. `duration_millis` is the time the transfer
/// took, in thousandths of a second.
#[derive(Debug, Clone, Copy, PartialEq, Eq, Structural)]
pub struct SyncStats {
    pub files_transferred: u64,
    pub bytes_transferred: u64,
    pub duration_millis: u64,
    pub conflicts_detected: u64,
    pub conflicts_skipped: u64,
    pub conflicts_resolved: u64,
}

/// The statistics of a run that has done nothing yet.
pub open spec fn no_stats() -> SyncStats {
    SyncStats {
        files_transferred: 0,
        bytes_transferred: 0,
        duration_millis: 0,
        conflicts_detected: 0,
        conflicts_skipped: 0,
        conflicts_resolved: 0,
    }
}

impl Default for SyncStats {
    fn default() -> (stats: Self)
        ensures
            stats == no_stats(),
    {
        SyncStats {
            files_transferred: 0,
            bytes_transferred: 0,
            duration_millis: 0,
            conflicts_detected: 0,
            conflicts_skipped: 0,
            conflicts_resolved: 0,
        }
    }
}

impl SyncStats {
    /// Whether the run ended with a warning: a conflict was left unresolved.
    pub fn completed_with_warnings(&self) -> (r: bool)
        ensures
            r == (self.conflicts_skipped > 0),
    {
        self.conflicts_skipped > 0
    }
}

// ---------------------------------------------------------------------------
// The command line
// ---------------------------------------------------------------------------

/// One `--exclude=` option for each pattern, in order.
pub open spec fn exclude_options(patterns: Seq<Seq<char>>) -> Seq<Seq<char>> {
    patterns.map_values(|p: Seq<char>| "--exclude="@ + p)
}

/// The options that tell the transfer tool the kind of sync.
pub open spec fn mode_options(kind: SyncType) -> Seq<Seq<char>> {
    match kind {
        SyncType::Mirror => seq!["--delete"@],
        SyncType::OneWay => Seq::empty(),
        SyncType::TwoWay => Seq::empty(),
        SyncType::Incremental => seq!["--update"@],
        SyncType::Backup => seq!["--backup"@, "--backup-dir=.backup"@],
    }
}

/// The remote shell: `ssh -p <port>`, with ` -i <key>` where a key is given.
pub open spec fn remote_shell(port: u16, key_path: Option<String>) -> Seq<char> {
    match key_path {
        Some(key) => "ssh -p "@ + decimal(port as nat) + " -i "@ + key@,
        None => "ssh -p "@ + decimal(port as nat),
    }
}

/// The remote end: `<user>@<host>:<path>`.
pub open spec fn remote_target(nas: NasConfig, remote_path: Seq<char>) -> Seq<char> {
    nas.username@ + "@"@ + nas.host@ + ":"@ + remote_path
}

/// The command line that transfers `profile` to `nas`: the program, then its
/// arguments.
pub open spec fn rsync_command(nas: NasConfig, profile: SyncProfile, dry_run: bool) -> Seq<
    Seq<char>,
> {
    seq!["rsync"@, "-az"@, "--stats"@, "--human-readable"@] + (if dry_run {
        seq!["--dry-run"@]
    } else {
        Seq::empty()
    }) + seq!["-v"@] + exclude_options(texts_of(profile.exclude@)) + mode_options(profile.sync_type)
        + seq!["-e"@, remote_shell(nas.port, nas.key_path)] + seq![
        profile.local_path@,
        remote_target(nas, profile.remote_path@),
    ]
}

fn push_text(args: &mut Vec<String>, text: &str)
    ensures
        texts_of(final(args)@) == texts_of(old(args)@).push(text@),
{
    args.push(text.to_owned());
    assert(texts_of(args@) =~= texts_of(old(args)@).push(text@));
}

fn push_string(args: &mut Vec<String>, text: String)
    ensures
        texts_of(final(args)@) == texts_of(old(args)@).push(text@),
{
    args.push(text);
    assert(texts_of(args@) =~= texts_of(old(args)@).push(text@));
}

// ---------------------------------------------------------------------------
// The transfer tool's report
// ---------------------------------------------------------------------------

/// The label of the line that counts the files.
pub open spec fn files_label() -> Seq<char> {
    "Number of regular files transferred:"@
}

/// The label of the line that counts the bytes.
pub open spec fn size_label() -> Seq<char> {
    "Total transferred file size:"@
}

/// The text between the first colon of `line` and the next one, or the end of
/// the line. `None` where the line has no colon.
pub open spec fn field_after_colon(line: Seq<char>) -> Option<Seq<char>> {
    let a = run_length(line, CharClass::Except(':'));
    if a == line.len() {
        None
    } else {
        let rest = line.subrange(a as int + 1, line.len() as int);
        Some(rest.subrange(0, run_length(rest, CharClass::Except(':')) as int))
    }
}

/// The first run of `field` that is free of white space. `None` where the
/// field is blank.
pub open spec fn first_token(field: Seq<char>) -> Option<Seq<char>> {
    let a = run_length(field, CharClass::Space);
    let rest = field.subrange(a as int, field.len() as int);
    let b = run_length(rest, CharClass::Solid);
    if b == 0 {
        None
    } else {
        Some(rest.subrange(0, b as int))
    }
}

/// `s` without its commas.
pub open spec fn without_commas(s: Seq<char>) -> Seq<char> {
    s.filter(|c: char| c != ',')
}

/// What one line of the report changes in `stats`.
///
/// A line that holds the files label sets the number of files to the number
/// that follows its first colon (0 where nothing follows). Any other line
/// that holds the size label sets the number of bytes to the number that
/// follows its first colon, read without its commas. A number that does not
/// read as one changes nothing.
pub open spec fn read_line(line: Seq<char>, stats: SyncStats) -> SyncStats {
    if is_substring(files_label(), line) {
        match field_after_colon(line) {
            None => stats,
            Some(field) => {
                let token = match first_token(field) {
                    Some(t) => t,
                    None => "0"@,
                };
                match parse_u64_spec(token) {
                    Some(n) => SyncStats { files_transferred: n, ..stats },
                    None => stats,
                }
            },
        }
    } else if is_substring(size_label(), line) {
        match field_after_colon(line) {
            None => stats,
            Some(field) => match first_token(field) {
                None => stats,
                Some(t) => match parse_u64_spec(without_commas(t)) {
                    Some(n) => SyncStats { bytes_transferred: n, ..stats },
                    None => stats,
                },
            },
        }
    } else {
        stats
    }
}

/// What the report `text` makes of `stats`: its lines, which end at each
/// line feed, are read in order.
pub open spec fn read_output(text: Seq<char>, stats: SyncStats) -> SyncStats
    decreases text.len(),
{
    let n = run_length(text, CharClass::Except('\n'));
    let after = read_line(text.subrange(0, n as int), stats);
    if n >= text.len() {
        after
    } else {
        read_output(text.subrange(n as int + 1, text.len() as int), after)
    }
}

/// `v[from..to]` without its commas.
fn strip_commas(v: &Vec<char>, from: usize, to: usize) -> (out: Vec<char>)
    requires
        from <= to <= v.len(),
    ensures
        out@ == without_commas(v@.subrange(from as int, to as int)),
{
    let ghost s = v@.subrange(from as int, to as int);
    let ghost keep = |c: char| c != ',';
    let mut out: Vec<char> = Vec::new();
    let mut i: usize = from;
    assert(s.subrange(0, 0).filter(keep) == Seq::<char>::empty());
    while i < to
        invariant
            from <= i <= to <= v.len(),
            s == v@.subrange(from as int, to as int),
            keep == |c: char| c != ',',
            out@ == s.subrange(0, i - from).filter(keep),
        decreases to - i,
    {
        proof {
            lemma_filter_step(s, i - from, keep);
        }
        if v[i] != ',' {
            out.push(v[i]);
        }
        i += 1;
    }
    assert(s.subrange(0, s.len() as int) == s);
    out
}

/// The field of `v[from..to]` after its first colon, as a range of `v`.
fn find_field(v: &Vec<char>, from: usize, to: usize) -> (r: Option<(usize, usize)>)
    requires
        from <= to <= v.len(),
    ensures
        match r {
            None => field_after_colon(v@.subrange(from as int, to as int)) is None,
            Some((a, b)) => from <= a <= b <= to && field_after_colon(
                v@.subrange(from as int, to as int),
            ) == Some(v@.subrange(a as int, b as int)),
        },
{
    let ghost line = v@.subrange(from as int, to as int);
    let colon = scan(v, from, to, &CharClass::Except(':'));
    if colon == to {
        return None;
    }
    let start: usize = colon + 1;
    let end = scan(v, start, to, &CharClass::Except(':'));
    proof {
        let rest = line.subrange(colon - from + 1, line.len() as int);
        assert(rest =~= v@.subrange(start as int, to as int));
        assert(rest.subrange(0, end - start) =~= v@.subrange(start as int, end as int));
    }
    Some((start, end))
}

/// The first token of `v[from..to]`, as a range of `v`.
fn find_token(v: &Vec<char>, from: usize, to: usize) -> (r: Option<(usize, usize)>)
    requires
        from <= to <= v.len(),
    ensures
        match r {
            None => first_token(v@.subrange(from as int, to as int)) is None,
            Some((a, b)) => from <= a <= b <= to && first_token(
                v@.subrange(from as int, to as int),
            ) == Some(v@.subrange(a as int, b as int)),
        },
{
    let ghost field = v@.subrange(from as int, to as int);
    let start = scan(v, from, to, &CharClass::Space);
    let end = scan(v, start, to, &CharClass::Solid);
    proof {
        let rest = field.subrange(start - from, field.len() as int);
        assert(rest =~= v@.subrange(start as int, to as int));
        assert(rest.subrange(0, end - start) =~= v@.subrange(start as int, end as int));
    }
    if end == start {
        None
    } else {
        Some((start, end))
    }
}

/// Reads the line `v[from..to]` of a report.
fn read_line_at(v: &Vec<char>, from: usize, to: usize, stats: SyncStats) -> (out: SyncStats)
    requires
        from <= to <= v.len(),
    ensures
        out == read_line(v@.subrange(from as int, to as int), stats),
{
    let files = chars_of("Number of regular files transferred:");
    let size = chars_of("Total transferred file size:");
    let mut out = stats;
    if contains_in(v, from, to, &files) {
        if let Some((a, b)) = find_field(v, from, to) {
            let number = match find_token(v, a, b) {
                Some((c, d)) => parse_u64(v, c, d),
                None => {
                    let zero = chars_of("0");
                    assert(zero@.subrange(0, zero@.len() as int) == zero@);
                    parse_u64(&zero, 0, zero.len())
                },
            };
            if let Some(n) = number {
                out.files_transferred = n;
            }
        }
    } else if contains_in(v, from, to, &size) {
        if let Some((a, b)) = find_field(v, from, to) {
            if let Some((c, d)) = find_token(v, a, b) {
                let digits = strip_commas(v, c, d);
                assert(digits@.subrange(0, digits@.len() as int) == digits@);
                if let Some(n) = parse_u64(&digits, 0, digits.len()) {
                    out.bytes_transferred = n;
                }
            }
        }
    }
    out
}

// ---------------------------------------------------------------------------
// The engine
// ---------------------------------------------------------------------------

/// What the transfer tool gave back: whether it ended well, what it wrote,
/// and how long it ran.
#[derive(Debug, Clone, PartialEq, Eq)]
pub struct TransferOutput {
    pub success: bool,
    pub stdout: String,
    pub stderr: String,
    pub duration_millis: u64,
}

/// Runs profiles against one storage target.
pub struct SyncEngine {
    pub nas_config: NasConfig,
    pub conflict_resolver: Option<ConflictResolver>,
}

/// What a finished transfer amounts to: its statistics, or the failure of
/// the run with what the tool wrote to its error stream.
pub open spec fn sync_result(transfer: TransferOutput) -> Result<SyncStats, SyncErrorView> {
    if transfer.success {
        Ok(
            read_output(
                transfer.stdout@,
                SyncStats { duration_millis: transfer.duration_millis, ..no_stats() },
            ),
        )
    } else {
        Err(SyncErrorView::TransferFailed { stderr: transfer.stderr@ })
    }
}

impl SyncEngine {
    /// An engine for the target `nas_config`. It detects conflicts if a
    /// state store can be had, that is, if there is a home directory.
    pub fn new(nas_config: NasConfig, home: Option<&str>) -> (engine: SyncEngine)
        ensures
            engine.nas_config == nas_config,
            engine.conflict_resolver is Some == home is Some,
            engine.conflict_resolver matches Some(resolver) ==> resolver.records() == Map::<
                Seq<char>,
                RecordView,
            >::empty() && resolver.state_file() == state_file_below(home->0@),
    {
        let conflict_resolver = match ConflictResolver::new(home) {
            Ok(resolver) => Some(resolver),
            Err(_) => None,
        };
        SyncEngine { nas_config, conflict_resolver }
    }

    /// The policy by which this engine resolves conflicts of `profile`:
    /// the profile's own or `Skip`, for a two-way profile and where the engine
    /// has a resolver; none otherwise.
    pub fn conflict_policy(&self, profile: &SyncProfile) -> (policy: Option<ConflictResolution>)
        ensures
            policy == if profile.sync_type == SyncType::TwoWay && self.conflict_resolver is Some {
                Some(effective_policy(*profile))
            } else {
                None
            },
    {
        if profile.sync_type == SyncType::TwoWay && self.conflict_resolver.is_some() {
            Some(profile.policy())
        } else {
            None
        }
    }

    /// The command line that transfers `profile`: the program, then its
    /// arguments.
    pub fn build_rsync_command(&self, profile: &SyncProfile, dry_run: bool) -> (command: Vec<
        String,
    >)
        ensures
            texts_of(command@) == rsync_command(self.nas_config, *profile, dry_run),
    {
        let mut args: Vec<String> = Vec::new();
        assert(texts_of(args@) =~= Seq::<Seq<char>>::empty());
        push_text(&mut args, "rsync");
        push_text(&mut args, "-az");
        push_text(&mut args, "--stats");
        push_text(&mut args, "--human-readable");
        if dry_run {
            push_text(&mut args, "--dry-run");
        }
        push_text(&mut args, "-v");
        let ghost head = texts_of(args@);
        assert(head =~= seq!["rsync"@, "-az"@, "--stats"@, "--human-readable"@] + (if dry_run {
            seq!["--dry-run"@]
        } else {
            Seq::empty()
        }) + seq!["-v"@]);

        let ghost patterns = texts_of(profile.exclude@);
        let mut i: usize = 0;
        while i < profile.exclude.len()
            invariant
                i <= profile.exclude.len(),
                patterns == texts_of(profile.exclude@),
                texts_of(args@) == head + exclude_options(patterns.subrange(0, i as int)),
            decreases profile.exclude.len() - i,
        {
            let mut option = "--exclude=".to_owned();
            option.append(profile.exclude[i].as_str());
            push_string(&mut args, option);
            assert(exclude_options(patterns.subrange(0, i + 1)) =~= exclude_options(
                patterns.subrange(0, i as int),
            ).push("--exclude="@ + patterns[i as int]));
            i += 1;
        }
        assert(patterns.subrange(0, i as int) == patterns);

        let ghost before_mode = texts_of(args@);
        match profile.sync_type {
            SyncType::Mirror => {
                push_text(&mut args, "--delete");
            },
            SyncType::OneWay => {},
            SyncType::TwoWay => {},
            SyncType::Incremental => {
                push_text(&mut args, "--update");
            },
            SyncType::Backup => {
                push_text(&mut args, "--backup");
                push_text(&mut args, "--backup-dir=.backup");
            },
        }
        assert(texts_of(args@) =~= before_mode + mode_options(profile.sync_type));

        let mut shell = "ssh -p ".to_owned();
        push_decimal(&mut shell, self.nas_config.port as u64);
        match &self.nas_config.key_path {
            Some(key) => {
                shell.append(" -i ");
                shell.append(key.as_str());
            },
            None => {},
        }
        assert(shell@ == remote_shell(self.nas_config.port, self.nas_config.key_path));

        let mut target = self.nas_config.username.clone();
        target.append("@");
        target.append(self.nas_config.host.as_str());
        target.append(":");
        target.append(profile.remote_path.as_str());

        let ghost before_shell = texts_of(args@);
        push_text(&mut args, "-e");
        push_string(&mut args, shell);
        push_string(&mut args, profile.local_path.clone());
        push_string(&mut args, target);
        assert(texts_of(args@) =~= before_shell + seq![
            "-e"@,
            remote_shell(self.nas_config.port, self.nas_config.key_path),
        ] + seq![profile.local_path@, remote_target(self.nas_config, profile.remote_path@)]);
        args
    }

    /// Reads the statistics that the transfer tool wrote into `stats`.
    pub fn parse_rsync_output(output: &str, stats: SyncStats) -> (out: SyncStats)
        ensures
            out == read_output(output@, stats),
    {
        let v = chars_of(output);
        let mut out = stats;
        let mut pos: usize = 0;
        assert(v@.subrange(0, v@.len() as int) == v@);
        loop
            invariant_except_break
                pos <= v.len(),
                v@ == output@,
                read_output(output@, stats) == read_output(
                    v@.subrange(pos as int, v@.len() as int),
                    out,
                ),
            ensures
                out == read_output(output@, stats),
            decreases v.len() - pos,
        {
            let ghost rest = v@.subrange(pos as int, v@.len() as int);
            let end = scan(&v, pos, v.len(), &CharClass::Except('\n'));
            let next = read_line_at(&v, pos, end, out);
            proof {
                assert(rest.subrange(0, end - pos) =~= v@.subrange(pos as int, end as int));
                if end < v.len() {
                    assert(rest.subrange(end - pos + 1, rest.len() as int) =~= v@.subrange(
                        end + 1,
                        v@.len() as int,
                    ));
                }
            }
            out = next;
            if end >= v.len() {
                break ;
            }
            pos = end + 1;
        }
        out
    }

    /// What a run of a profile amounts to, given what the transfer tool gave
    /// back for the command line of `build_rsync_command`: the statistics
    /// that the tool reported, or `TransferFailed` where it ended with an
    /// error.
    pub fn sync_profile(&self, transfer: &TransferOutput) -> (r: Result<SyncStats, SyncError>)
        ensures
            match r {
                Ok(stats) => sync_result(*transfer) == Ok::<SyncStats, SyncErrorView>(stats),
                Err(e) => sync_result(*transfer) == Err::<SyncStats, SyncErrorView>(e@),
            },
    {
        if !transfer.success {
            return Err(SyncError::TransferFailed { stderr: transfer.stderr.clone() });
        }
        let mut stats = SyncStats::default();
        stats.duration_millis = transfer.duration_millis;
        Ok(Self::parse_rsync_output(transfer.stdout.as_str(), stats))
    }
}

} // verus!
