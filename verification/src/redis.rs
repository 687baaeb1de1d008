//! The redis `INFO` reply: a line-oriented `key:value` format, and the
//! gauges taken from it.
use vstd::prelude::*;
use crate::error::AgentResult;
use crate::label::{Label, Labels};
use crate::measure::{Measure, Value};
use crate::text::{chars_of, compare_str, string_of};

verus! {

/// The value of an `INFO` field.
#[derive(Debug, PartialEq, Eq)]
pub enum InfoValue {
    /// An integer (`-`? digits); zero when it does not fit in 64 bits.
    Int(i64),
    /// A decimal number (`-`? digits `.` digits), as written.
    Float(String),
    /// Any other text up to the end of the line.
    Str(String),
}

/// One line of an `INFO` reply.
#[derive(Debug, PartialEq, Eq)]
pub enum InfoItem {
    /// A `key:value` line.
    Value(String, InfoValue),
    /// Any other line (comments, section headers, blank lines).
    Ignored,
}

/// What an `INFO` value holds.
pub enum InfoValueView {
    Int(int),
    Float(Seq<char>),
    Str(Seq<char>),
}

/// What an `INFO` line holds.
pub enum InfoItemView {
    Value(Seq<char>, InfoValueView),
    Ignored,
}

impl View for InfoValue {
    type V = InfoValueView;

    open spec fn view(&self) -> InfoValueView {
        match self {
            InfoValue::Int(x) => InfoValueView::Int(*x as int),
            InfoValue::Float(t) => InfoValueView::Float(t@),
            InfoValue::Str(t) => InfoValueView::Str(t@),
        }
    }
}

impl View for InfoItem {
    type V = InfoItemView;

    open spec fn view(&self) -> InfoItemView {
        match self {
            InfoItem::Value(k, v) => InfoItemView::Value(k@, v@),
            InfoItem::Ignored => InfoItemView::Ignored,
        }
    }
}

/// The views of a sequence of items.
pub open spec fn item_views(v: Seq<InfoItem>) -> Seq<InfoItemView> {
    v.map_values(|x: InfoItem| x@)
}

pub open spec fn is_alpha(c: char) -> bool {
    ('a' <= c && c <= 'z') || ('A' <= c && c <= 'Z')
}

pub open spec fn is_digit(c: char) -> bool {
    '0' <= c && c <= '9'
}

/// Characters of a field name after its first letter.
pub open spec fn is_name_char(c: char) -> bool {
    is_alpha(c) || is_digit(c) || c == '_'
}

/// Characters that do not end a line.
pub open spec fn is_text_char(c: char) -> bool {
    c != '\r' && c != '\n'
}

/// Character classes: 0 name characters, 1 digits, 2 line text.
pub open spec fn in_class(class: u8, c: char) -> bool {
    if class == 0 {
        is_name_char(c)
    } else if class == 1 {
        is_digit(c)
    } else {
        is_text_char(c)
    }
}

/// The end of the run of characters of `class` that starts at `i`.
pub open spec fn run_end(s: Seq<char>, i: int, class: u8) -> int
    decreases s.len() - i,
{
    if 0 <= i < s.len() && in_class(class, s[i]) {
        run_end(s, i + 1, class)
    } else {
        i
    }
}

/// Length of the line ending (`\n` or `\r\n`) at `i`, zero when there is none.
pub open spec fn eol_len(s: Seq<char>, i: int) -> int {
    if 0 <= i < s.len() && s[i] == '\n' {
        1
    } else if 0 <= i && i + 1 < s.len() && s[i] == '\r' && s[i + 1] == '\n' {
        2
    } else {
        0
    }
}

/// The end of the line's text from `i`: the first `\n`, `\r\n` or the end
/// of input; a `\r` that is not followed by `\n` makes it fail.
pub open spec fn text_end(s: Seq<char>, i: int) -> Option<int> {
    let j = run_end(s, i, 2);
    if j >= s.len() {
        Some(j)
    } else if s[j] == '\n' {
        Some(j)
    } else if j + 1 < s.len() && s[j + 1] == '\n' {
        Some(j)
    } else {
        None
    }
}

/// The rest of a line from `i` up to and including its line ending:
/// (end of text, start of the next line).
pub open spec fn line_rest(s: Seq<char>, i: int) -> Option<(int, int)> {
    match text_end(s, i) {
        Some(j) => if eol_len(s, j) > 0 { Some((j, j + eol_len(s, j))) } else { None },
        None => None,
    }
}

/// Start of the digits after an optional minus sign at `i`.
pub open spec fn after_sign(s: Seq<char>, i: int) -> int {
    if 0 <= i < s.len() && s[i] == '-' { i + 1 } else { i }
}

/// An integer token filling the line from `i`: (end of token, next line).
pub open spec fn int_token(s: Seq<char>, i: int) -> Option<(int, int)> {
    let m = after_sign(s, i);
    let d = run_end(s, m, 1);
    if d > m && eol_len(s, d) > 0 { Some((d, d + eol_len(s, d))) } else { None }
}

/// A decimal token filling the line from `i`: (end of token, next line).
pub open spec fn float_token(s: Seq<char>, i: int) -> Option<(int, int)> {
    let m = after_sign(s, i);
    let d1 = run_end(s, m, 1);
    let d2 = run_end(s, d1 + 1, 1);
    if d1 > m && d1 < s.len() && s[d1] == '.' && d2 > d1 + 1 && eol_len(s, d2) > 0 {
        Some((d2, d2 + eol_len(s, d2)))
    } else {
        None
    }
}

/// The number written by a sequence of decimal digits.
pub open spec fn digits_value(d: Seq<char>) -> int
    decreases d.len(),
{
    if d.len() == 0 {
        0
    } else {
        digits_value(d.drop_last()) * 10 + (d.last() as int - '0' as int)
    }
}

/// The integer of an integer token; zero when it does not fit in an `i64`.
pub open spec fn int_value(tok: Seq<char>) -> int {
    let v = if tok.len() > 0 && tok[0] == '-' { -digits_value(tok.drop_first()) } else { digits_value(tok) };
    if i64::MIN <= v && v <= i64::MAX { v } else { 0 }
}

/// The value that starts at `i` and the start of the next line: an integer,
/// else a decimal, else the text of the line.
pub open spec fn value_at(s: Seq<char>, i: int) -> Option<(InfoValueView, int)> {
    match int_token(s, i) {
        Some((e, n)) => Some((InfoValueView::Int(int_value(s.subrange(i, e))), n)),
        None => match float_token(s, i) {
            Some((e, n)) => Some((InfoValueView::Float(s.subrange(i, e)), n)),
            None => match line_rest(s, i) {
                Some((e, n)) => Some((InfoValueView::Str(s.subrange(i, e)), n)),
                None => None,
            },
        },
    }
}

/// The line that starts at `i` and the start of the next line: a
/// `key:value` item when the line has a name (a letter, then letters,
/// digits and underscores), a colon and a value; otherwise an ignored line;
/// `None` when no line ending closes it.
pub open spec fn line_item(s: Seq<char>, i: int) -> Option<(InfoItemView, int)> {
    let n = run_end(s, i, 0);
    let kv = if 0 <= i < s.len() && is_alpha(s[i]) && n < s.len() && s[n] == ':' {
        value_at(s, n + 1)
    } else {
        None
    };
    match kv {
        Some((v, next)) => Some((InfoItemView::Value(s.subrange(i, n), v), next)),
        None => match line_rest(s, i) {
            Some((_, next)) => Some((InfoItemView::Ignored, next)),
            None => None,
        },
    }
}

/// The items of the lines from `i` on, up to the first line that no line
/// ending closes.
pub open spec fn parse_items(s: Seq<char>, i: int) -> Seq<InfoItemView>
    decreases s.len() - i,
{
    if 0 <= i <= s.len() {
        match line_item(s, i) {
            Some((it, next)) => if i < next <= s.len() {
                seq![it] + parse_items(s, next)
            } else {
                Seq::empty()
            },
            None => Seq::empty(),
        }
    } else {
        Seq::empty()
    }
}

proof fn lemma_run_end_bounds(s: Seq<char>, i: int, class: u8)
    requires
        0 <= i <= s.len(),
    ensures
        i <= run_end(s, i, class) <= s.len(),
        forall|k: int| i <= k < run_end(s, i, class) ==> in_class(class, #[trigger] s[k]),
        run_end(s, i, class) < s.len() ==> !in_class(class, s[run_end(s, i, class)]),
    decreases s.len() - i,
{
    if i < s.len() && in_class(class, s[i]) {
        lemma_run_end_bounds(s, i + 1, class);
    }
}

fn class_has(class: u8, c: char) -> (r: bool)
    ensures
        r == in_class(class, c),
{
    if class == 0 {
        ('a' <= c && c <= 'z') || ('A' <= c && c <= 'Z') || ('0' <= c && c <= '9') || c == '_'
    } else if class == 1 {
        '0' <= c && c <= '9'
    } else {
        c != '\r' && c != '\n'
    }
}

fn exec_run_end(s: &[char], i: usize, class: u8) -> (r: usize)
    requires
        i <= s.len(),
    ensures
        r == run_end(s@, i as int, class),
        i <= r <= s.len(),
{
    proof { lemma_run_end_bounds(s@, i as int, class); }
    let mut j = i;
    while j < s.len() && class_has(class, s[j])
        invariant
            i <= j <= s.len(),
            run_end(s@, j as int, class) == run_end(s@, i as int, class),
        decreases s.len() - j,
    {
        j = j + 1;
    }
    j
}

fn exec_eol_len(s: &[char], i: usize) -> (r: usize)
    ensures
        r == eol_len(s@, i as int),
        r <= 2,
{
    if i < s.len() && s[i] == '\n' {
        1
    } else if i < s.len() && s.len() - i > 1 && s[i] == '\r' && s[i + 1] == '\n' {
        2
    } else {
        0
    }
}

fn exec_line_rest(s: &[char], i: usize) -> (r: Option<(usize, usize)>)
    requires
        i <= s.len(),
    ensures
        r matches Some((a, b)) ==> line_rest(s@, i as int) == Some((a as int, b as int)) && i <= a < b <= s.len(),
        r is None ==> line_rest(s@, i as int) is None,
{
    let j = exec_run_end(s, i, 2);
    let ok = if j >= s.len() {
        true
    } else if s[j] == '\n' {
        true
    } else {
        s.len() - j > 1 && s[j + 1] == '\n'
    };
    if !ok {
        return None;
    }
    let e = exec_eol_len(s, j);
    if e > 0 {
        Some((j, j + e))
    } else {
        None
    }
}

fn exec_after_sign(s: &[char], i: usize) -> (r: usize)
    requires
        i <= s.len(),
    ensures
        r == after_sign(s@, i as int),
        i <= r <= s.len(),
{
    if i < s.len() && s[i] == '-' { i + 1 } else { i }
}

fn exec_int_token(s: &[char], i: usize) -> (r: Option<(usize, usize)>)
    requires
        i <= s.len(),
    ensures
        r matches Some((a, b)) ==> int_token(s@, i as int) == Some((a as int, b as int)) && i < a < b <= s.len(),
        r is None ==> int_token(s@, i as int) is None,
{
    let m = exec_after_sign(s, i);
    let d = exec_run_end(s, m, 1);
    let e = exec_eol_len(s, d);
    if d > m && e > 0 {
        Some((d, d + e))
    } else {
        None
    }
}

fn exec_float_token(s: &[char], i: usize) -> (r: Option<(usize, usize)>)
    requires
        i <= s.len(),
    ensures
        r matches Some((a, b)) ==> float_token(s@, i as int) == Some((a as int, b as int)) && i < a < b <= s.len(),
        r is None ==> float_token(s@, i as int) is None,
{
    let m = exec_after_sign(s, i);
    let d1 = exec_run_end(s, m, 1);
    if !(d1 > m && d1 < s.len() && s[d1] == '.') {
        return None;
    }
    let d2 = exec_run_end(s, d1 + 1, 1);
    let e = exec_eol_len(s, d2);
    if d2 > d1 + 1 && e > 0 {
        Some((d2, d2 + e))
    } else {
        None
    }
}

proof fn lemma_digits_value_step(d: Seq<char>, c: char)
    ensures
        digits_value(d.push(c)) == digits_value(d) * 10 + (c as int - '0' as int),
{
    assert(d.push(c).drop_last() =~= d);
}

proof fn lemma_digits_value_nonneg(d: Seq<char>)
    requires
        forall|k: int| 0 <= k < d.len() ==> is_digit(#[trigger] d[k]),
    ensures
        digits_value(d) >= 0,
    decreases d.len(),
{
    if d.len() > 0 {
        lemma_digits_value_nonneg(d.drop_last());
    }
}

/// The integer of the token `s[i..e]`, as `int_value` says.
fn exec_int_value(s: &[char], i: usize, e: usize) -> (r: i64)
    requires
        i < e <= s.len(),
        forall|k: int| after_sign(s@, i as int) <= k < e ==> is_digit(#[trigger] s@[k]),
    ensures
        r as int == int_value(s@.subrange(i as int, e as int)),
{
    let neg = s[i] == '-';
    let m = if neg { i + 1 } else { i };
    let bound: u128 = 9223372036854775808u128;
    let mut acc: u128 = 0;
    let mut big = false;
    let mut k = m;
    while k < e
        invariant
            m <= k <= e,
            e <= s.len(),
            m == after_sign(s@, i as int),
            bound == 9223372036854775808u128,
            forall|x: int| m <= x < e ==> is_digit(#[trigger] s@[x]),
            !big ==> acc == digits_value(s@.subrange(m as int, k as int)) && acc <= bound,
            big ==> digits_value(s@.subrange(m as int, k as int)) > bound,
        decreases e - k,
    {
        let c = s[k];
        assert(is_digit(c));
        let dv = (c as u32 - '0' as u32) as u128;
        proof {
            lemma_digits_value_step(s@.subrange(m as int, k as int), c);
            assert(s@.subrange(m as int, k + 1) =~= s@.subrange(m as int, k as int).push(c));
        }
        if !big {
            let n = acc * 10 + dv;
            if n > bound {
                big = true;
            } else {
                acc = n;
            }
        }
        k = k + 1;
    }
    let tok = Ghost(s@.subrange(i as int, e as int));
    proof {
        if neg {
            assert(tok@.drop_first() =~= s@.subrange(m as int, e as int));
        } else {
            assert(tok@ =~= s@.subrange(m as int, e as int));
        }
        lemma_digits_value_nonneg(s@.subrange(m as int, e as int));
    }
    if big {
        0
    } else if neg {
        if acc == bound {
            i64::MIN
        } else {
            -(acc as i64)
        }
    } else if acc < bound {
        acc as i64
    } else {
        0
    }
}

fn exec_value_at(s: &[char], i: usize) -> (r: Option<(InfoValue, usize)>)
    requires
        i <= s.len(),
    ensures
        r matches Some((v, n)) ==> value_at(s@, i as int) == Some((v@, n as int)) && i < n <= s.len(),
        r is None ==> value_at(s@, i as int) is None,
{
    if let Some((e, n)) = exec_int_token(s, i) {
        proof {
            let m = after_sign(s@, i as int);
            lemma_run_end_bounds(s@, m, 1);
        }
        let x = exec_int_value(s, i, e);
        return Some((InfoValue::Int(x), n));
    }
    if let Some((e, n)) = exec_float_token(s, i) {
        let t = slice_string(s, i, e);
        return Some((InfoValue::Float(t), n));
    }
    if let Some((e, n)) = exec_line_rest(s, i) {
        let t = slice_string(s, i, e);
        return Some((InfoValue::Str(t), n));
    }
    None
}

/// The characters `s[from..to]` as a string.
fn slice_string(s: &[char], from: usize, to: usize) -> (r: String)
    requires
        from <= to <= s.len(),
    ensures
        r@ == s@.subrange(from as int, to as int),
{
    let mut v: Vec<char> = Vec::new();
    let mut k = from;
    while k < to
        invariant
            from <= k <= to,
            to <= s.len(),
            v@ == s@.subrange(from as int, k as int),
        decreases to - k,
    {
        v.push(s[k]);
        assert(s@.subrange(from as int, k + 1) =~= s@.subrange(from as int, k as int).push(s@[k as int]));
        k = k + 1;
    }
    string_of(v.as_slice())
}

fn exec_line_item(s: &[char], i: usize) -> (r: Option<(InfoItem, usize)>)
    requires
        i <= s.len(),
    ensures
        r matches Some((it, n)) ==> line_item(s@, i as int) == Some((it@, n as int)) && i < n <= s.len(),
        r is None ==> line_item(s@, i as int) is None,
{
    let n = exec_run_end(s, i, 0);
    if i < s.len() && ('a' <= s[i] && s[i] <= 'z' || 'A' <= s[i] && s[i] <= 'Z') && n < s.len() && s[n] == ':' {
        if let Some((v, next)) = exec_value_at(s, n + 1) {
            let key = slice_string(s, i, n);
            return Some((InfoItem::Value(key, v), next));
        }
    }
    match exec_line_rest(s, i) {
        Some((_, next)) => Some((InfoItem::Ignored, next)),
        None => None,
    }
}

/// Parses an `INFO` reply line by line, up to the first line that no line
/// ending closes. Never fails.
pub fn parse(input: &str) -> (r: AgentResult<Vec<InfoItem>>)
    ensures
        r matches Ok(items) && item_views(items@) == parse_items(input@, 0),
{
    let s = chars_of(input);
    let mut items: Vec<InfoItem> = Vec::new();
    let mut pos: usize = 0;
    loop
        invariant
            s@ == input@,
            pos <= s.len(),
            parse_items(s@, 0) == item_views(items@) + parse_items(s@, pos as int),
        decreases s.len() - pos,
    {
        match exec_line_item(s.as_slice(), pos) {
            Some((it, next)) => {
                let ghost iv = it@;
                let ghost rest = parse_items(s@, next as int);
                assert(parse_items(s@, pos as int) == seq![iv] + rest);
                let ghost old_items = items@;
                items.push(it);
                assert(item_views(items@) =~= item_views(old_items).push(iv));
                assert(item_views(items@) + rest =~= item_views(old_items) + (seq![iv] + rest));
                pos = next;
            }
            None => {
                assert(parse_items(s@, pos as int) =~= Seq::<InfoItemView>::empty());
                assert(item_views(items@) + Seq::<InfoItemView>::empty() =~= item_views(items@));
                return Ok(items);
            }
        }
    }
}

/// The views of a sequence of string slices.
pub open spec fn str_views(v: Seq<&str>) -> Seq<Seq<char>> {
    v.map_values(|s: &str| s@)
}

/// INFO fields reported as unsigned gauges.
pub open spec fn unsigned_gauge_keys() -> Seq<Seq<char>> {
    seq![
        "active_defrag_hits"@,
        "active_defrag_key_hits"@,
        "active_defrag_key_misses"@,
        "active_defrag_misses"@,
        "active_defrag_running"@,
        "allocator_active"@,
        "allocator_allocated"@,
        "allocator_frag_bytes"@,
        "allocator_resident"@,
        "allocator_rss_bytes"@,
        "aof_enabled"@,
        "aof_last_cow_size"@,
        "aof_rewrite_in_progress"@,
        "aof_rewrite_scheduled"@,
        "aof_rewrites"@,
        "aof_rewrites_consecutive_failures"@,
        "async_loading"@,
        "blocked_clients"@,
        "client_recent_max_input_buffer"@,
        "client_recent_max_output_buffer"@,
        "clients_in_timeout_table"@,
        "cluster_connections"@,
        "connected_clients"@,
        "connected_slaves"@,
        "current_active_defrag_time"@,
        "current_cow_peak"@,
        "current_cow_size"@,
        "current_cow_size_age"@,
        "current_eviction_exceeded_time"@,
        "current_save_keys_processed"@,
        "current_save_keys_total"@,
        "dump_payload_sanitizations"@,
        "evicted_clients"@,
        "evicted_keys"@,
        "expire_cycle_cpu_milliseconds"@,
        "expired_keys"@,
        "expired_time_cap_reached_count"@,
        "instantaneous_ops_per_sec"@,
        "io_threaded_reads_processed"@,
        "io_threaded_writes_processed"@,
        "io_threads_active"@,
        "keyspace_hits"@,
        "keyspace_misses"@,
        "latest_fork_usec"@,
        "lazyfree_pending_objects"@,
        "lazyfreed_objects"@,
        "loading"@,
        "master_repl_offset"@,
        "master_replid2"@,
        "maxclients"@,
        "maxmemory"@,
        "mem_aof_buffer"@,
        "mem_clients_normal"@,
        "mem_clients_slaves"@,
        "mem_cluster_links"@,
        "mem_fragmentation_bytes"@,
        "mem_not_counted_for_evict"@,
        "mem_replication_backlog"@,
        "mem_total_replication_buffers"@,
        "migrate_cached_sockets"@,
        "module_fork_in_progress"@,
        "module_fork_last_cow_size"@,
        "number_of_cached_scripts"@,
        "number_of_functions"@,
        "number_of_libraries"@,
        "pubsub_channels"@,
        "pubsub_patterns"@,
        "pubsubshard_channels"@,
        "rdb_bgsave_in_progress"@,
        "rdb_changes_since_last_save"@,
        "rdb_last_cow_size"@,
        "rdb_last_load_keys_expired"@,
        "rdb_last_load_keys_loaded"@,
        "rdb_last_save_time"@,
        "rdb_saves"@,
        "rejected_connections"@,
        "repl_backlog_active"@,
        "repl_backlog_first_byte_offset"@,
        "repl_backlog_histlen"@,
        "repl_backlog_size"@,
        "reply_buffer_expands"@,
        "reply_buffer_shrinks"@,
        "rss_overhead_bytes"@,
        "slave_expires_tracked_keys"@,
        "sync_full"@,
        "sync_partial_err"@,
        "sync_partial_ok"@,
        "total_active_defrag_time"@,
        "total_commands_processed"@,
        "total_connections_received"@,
        "total_error_replies"@,
        "total_eviction_exceeded_time"@,
        "total_forks"@,
        "total_net_input_bytes"@,
        "total_net_output_bytes"@,
        "total_net_repl_input_bytes"@,
        "total_net_repl_output_bytes"@,
        "total_reads_processed"@,
        "total_system_memory"@,
        "total_writes_processed"@,
        "tracking_clients"@,
        "tracking_total_items"@,
        "tracking_total_keys"@,
        "tracking_total_prefixes"@,
        "unexpected_error_replies"@,
        "uptime_in_seconds"@,
        "used_memory"@,
        "used_memory_dataset"@,
        "used_memory_functions"@,
        "used_memory_lua"@,
        "used_memory_overhead"@,
        "used_memory_peak"@,
        "used_memory_rss"@,
        "used_memory_scripts"@,
        "used_memory_scripts_eval"@,
        "used_memory_startup"@,
        "used_memory_vm_eval"@,
        "used_memory_vm_functions"@,
        "used_memory_vm_total"@,
    ]
}

/// INFO fields reported as signed gauges.
pub open spec fn signed_gauge_keys() -> Seq<Seq<char>> {
    seq![
        "aof_current_rewrite_time_sec"@,
        "aof_last_rewrite_time_sec"@,
        "rdb_current_bgsave_time_sec"@,
        "rdb_last_bgsave_time_sec"@,
    ]
}

/// INFO fields reported as float gauges.
pub open spec fn float_gauge_keys() -> Seq<Seq<char>> {
    seq![
        "allocator_frag_ratio"@,
        "allocator_rss_ratio"@,
        "expired_stale_perc"@,
        "instantaneous_input_kbps"@,
        "instantaneous_input_repl_kbps"@,
        "instantaneous_output_kbps"@,
        "instantaneous_output_repl_kbps"@,
        "mem_fragmentation_ratio"@,
        "rss_overhead_ratio"@,
        "second_repl_offset"@,
        "used_cpu_sys"@,
        "used_cpu_sys_children"@,
        "used_cpu_sys_main_thread"@,
        "used_cpu_user"@,
        "used_cpu_user_children"@,
        "used_cpu_user_main_thread"@,
    ]
}

/// The unsigned gauge fields.
fn unsigned_gauge_table() -> (r: Vec<&'static str>)
    ensures
        str_views(r@) == unsigned_gauge_keys(),
{
    let r = vec![
        "active_defrag_hits",
        "active_defrag_key_hits",
        "active_defrag_key_misses",
        "active_defrag_misses",
        "active_defrag_running",
        "allocator_active",
        "allocator_allocated",
        "allocator_frag_bytes",
        "allocator_resident",
        "allocator_rss_bytes",
        "aof_enabled",
        "aof_last_cow_size",
        "aof_rewrite_in_progress",
        "aof_rewrite_scheduled",
        "aof_rewrites",
        "aof_rewrites_consecutive_failures",
        "async_loading",
        "blocked_clients",
        "client_recent_max_input_buffer",
        "client_recent_max_output_buffer",
        "clients_in_timeout_table",
        "cluster_connections",
        "connected_clients",
        "connected_slaves",
        "current_active_defrag_time",
        "current_cow_peak",
        "current_cow_size",
        "current_cow_size_age",
        "current_eviction_exceeded_time",
        "current_save_keys_processed",
        "current_save_keys_total",
        "dump_payload_sanitizations",
        "evicted_clients",
        "evicted_keys",
        "expire_cycle_cpu_milliseconds",
        "expired_keys",
        "expired_time_cap_reached_count",
        "instantaneous_ops_per_sec",
        "io_threaded_reads_processed",
        "io_threaded_writes_processed",
        "io_threads_active",
        "keyspace_hits",
        "keyspace_misses",
        "latest_fork_usec",
        "lazyfree_pending_objects",
        "lazyfreed_objects",
        "loading",
        "master_repl_offset",
        "master_replid2",
        "maxclients",
        "maxmemory",
        "mem_aof_buffer",
        "mem_clients_normal",
        "mem_clients_slaves",
        "mem_cluster_links",
        "mem_fragmentation_bytes",
        "mem_not_counted_for_evict",
        "mem_replication_backlog",
        "mem_total_replication_buffers",
        "migrate_cached_sockets",
        "module_fork_in_progress",
        "module_fork_last_cow_size",
        "number_of_cached_scripts",
        "number_of_functions",
        "number_of_libraries",
        "pubsub_channels",
        "pubsub_patterns",
        "pubsubshard_channels",
        "rdb_bgsave_in_progress",
        "rdb_changes_since_last_save",
        "rdb_last_cow_size",
        "rdb_last_load_keys_expired",
        "rdb_last_load_keys_loaded",
        "rdb_last_save_time",
        "rdb_saves",
        "rejected_connections",
        "repl_backlog_active",
        "repl_backlog_first_byte_offset",
        "repl_backlog_histlen",
        "repl_backlog_size",
        "reply_buffer_expands",
        "reply_buffer_shrinks",
        "rss_overhead_bytes",
        "slave_expires_tracked_keys",
        "sync_full",
        "sync_partial_err",
        "sync_partial_ok",
        "total_active_defrag_time",
        "total_commands_processed",
        "total_connections_received",
        "total_error_replies",
        "total_eviction_exceeded_time",
        "total_forks",
        "total_net_input_bytes",
        "total_net_output_bytes",
        "total_net_repl_input_bytes",
        "total_net_repl_output_bytes",
        "total_reads_processed",
        "total_system_memory",
        "total_writes_processed",
        "tracking_clients",
        "tracking_total_items",
        "tracking_total_keys",
        "tracking_total_prefixes",
        "unexpected_error_replies",
        "uptime_in_seconds",
        "used_memory",
        "used_memory_dataset",
        "used_memory_functions",
        "used_memory_lua",
        "used_memory_overhead",
        "used_memory_peak",
        "used_memory_rss",
        "used_memory_scripts",
        "used_memory_scripts_eval",
        "used_memory_startup",
        "used_memory_vm_eval",
        "used_memory_vm_functions",
        "used_memory_vm_total",
    ];
    assert(str_views(r@) =~= unsigned_gauge_keys());
    r
}

/// The signed gauge fields.
fn signed_gauge_table() -> (r: Vec<&'static str>)
    ensures
        str_views(r@) == signed_gauge_keys(),
{
    let r = vec![
        "aof_current_rewrite_time_sec",
        "aof_last_rewrite_time_sec",
        "rdb_current_bgsave_time_sec",
        "rdb_last_bgsave_time_sec",
    ];
    assert(str_views(r@) =~= signed_gauge_keys());
    r
}

/// The float gauge fields.
fn float_gauge_table() -> (r: Vec<&'static str>)
    ensures
        str_views(r@) == float_gauge_keys(),
{
    let r = vec![
        "allocator_frag_ratio",
        "allocator_rss_ratio",
        "expired_stale_perc",
        "instantaneous_input_kbps",
        "instantaneous_input_repl_kbps",
        "instantaneous_output_kbps",
        "instantaneous_output_repl_kbps",
        "mem_fragmentation_ratio",
        "rss_overhead_ratio",
        "second_repl_offset",
        "used_cpu_sys",
        "used_cpu_sys_children",
        "used_cpu_sys_main_thread",
        "used_cpu_user",
        "used_cpu_user_children",
        "used_cpu_user_main_thread",
    ];
    assert(str_views(r@) =~= float_gauge_keys());
    r
}
/// The value of a gauge taken from an `INFO` field.
#[derive(Debug, PartialEq, Eq)]
pub enum RedisValue {
    Unsigned(u64),
    Signed(i64),
    /// A decimal number as written in the reply.
    Float(String),
}

/// A gauge taken from an `INFO` field: `redis_` and the field's name, and its value.
#[derive(Debug, PartialEq, Eq)]
pub struct RedisGauge {
    pub name: String,
    pub value: RedisValue,
}

pub enum RedisValueView {
    Unsigned(u64),
    Signed(i64),
    Float(Seq<char>),
}

impl View for RedisGauge {
    type V = (Seq<char>, RedisValueView);

    open spec fn view(&self) -> (Seq<char>, RedisValueView) {
        (self.name@, match self.value {
            RedisValue::Unsigned(x) => RedisValueView::Unsigned(x),
            RedisValue::Signed(x) => RedisValueView::Signed(x),
            RedisValue::Float(t) => RedisValueView::Float(t@),
        })
    }
}

/// The name prefix of redis gauges.
pub open spec fn redis_prefix() -> Seq<char> {
    seq!['r', 'e', 'd', 'i', 's', '_']
}

/// The gauge an item gives: integer fields of the signed table, integer
/// fields of the unsigned table (negative values wrap to 64 bits), decimal
/// fields of the float table; nothing for other items.
pub open spec fn gauge_of(it: InfoItemView) -> Option<(Seq<char>, RedisValueView)> {
    match it {
        InfoItemView::Value(k, v) => match v {
            InfoValueView::Int(x) => if signed_gauge_keys().contains(k) {
                Some((redis_prefix() + k, RedisValueView::Signed(x as i64)))
            } else if unsigned_gauge_keys().contains(k) {
                Some((redis_prefix() + k, RedisValueView::Unsigned(x as u64)))
            } else {
                None
            },
            InfoValueView::Float(t) => if float_gauge_keys().contains(k) {
                Some((redis_prefix() + k, RedisValueView::Float(t)))
            } else {
                None
            },
            InfoValueView::Str(_) => None,
        },
        InfoItemView::Ignored => None,
    }
}

/// The gauges of a sequence of items, in order.
pub open spec fn gauges_of(items: Seq<InfoItemView>) -> Seq<(Seq<char>, RedisValueView)>
    decreases items.len(),
{
    if items.len() == 0 {
        Seq::empty()
    } else {
        let pre = gauges_of(items.drop_last());
        match gauge_of(items.last()) {
            Some(g) => pre.push(g),
            None => pre,
        }
    }
}

fn table_has(table: &Vec<&'static str>, key: &str) -> (r: bool)
    ensures
        r == str_views(table@).contains(key@),
{
    let mut i: usize = 0;
    while i < table.len()
        invariant
            i <= table.len(),
            forall|j: int| 0 <= j < i ==> table@[j]@ != key@,
        decreases table.len() - i,
    {
        if compare_str(table[i], key) == 0 {
            assert(str_views(table@)[i as int] == key@);
            return true;
        }
        i = i + 1;
    }
    proof {
        if str_views(table@).contains(key@) {
            let j = choose|j: int| 0 <= j < str_views(table@).len() && str_views(table@)[j] == key@;
            assert(table@[j]@ == key@);
        }
    }
    false
}

fn prefixed_name(key: &str) -> (r: String)
    ensures
        r@ == redis_prefix() + key@,
{
    let mut out: Vec<char> = Vec::new();
    out.push('r');
    out.push('e');
    out.push('d');
    out.push('i');
    out.push('s');
    out.push('_');
    crate::text::push_str(&mut out, key);
    assert(out@ =~= redis_prefix() + key@);
    string_of(out.as_slice())
}

/// The gauges that an `INFO` reply's items give, in order.
pub fn redis_gauges(items: &Vec<InfoItem>) -> (r: Vec<RedisGauge>)
    ensures
        r@.map_values(|g: RedisGauge| g@) == gauges_of(item_views(items@)),
{
    let unsigned = unsigned_gauge_table();
    let signed = signed_gauge_table();
    let floats = float_gauge_table();
    let mut r: Vec<RedisGauge> = Vec::new();
    let mut i: usize = 0;
    while i < items.len()
        invariant
            i <= items.len(),
            str_views(unsigned@) == unsigned_gauge_keys(),
            str_views(signed@) == signed_gauge_keys(),
            str_views(floats@) == float_gauge_keys(),
            r@.map_values(|g: RedisGauge| g@) == gauges_of(item_views(items@).take(i as int)),
        decreases items.len() - i,
    {
        let ghost pre = item_views(items@).take(i as int);
        assert(item_views(items@).take(i + 1).drop_last() =~= pre);
        assert(item_views(items@).take(i + 1).last() == items@[i as int]@);
        let ghost r0 = r@;
        let g: Option<RedisGauge> = match &items[i] {
            InfoItem::Value(k, v) => match v {
                InfoValue::Int(x) => if table_has(&signed, k.as_str()) {
                    Some(RedisGauge { name: prefixed_name(k.as_str()), value: RedisValue::Signed(*x) })
                } else if table_has(&unsigned, k.as_str()) {
                    Some(RedisGauge { name: prefixed_name(k.as_str()), value: RedisValue::Unsigned(*x as u64) })
                } else {
                    None
                },
                InfoValue::Float(t) => if table_has(&floats, k.as_str()) {
                    Some(RedisGauge { name: prefixed_name(k.as_str()), value: RedisValue::Float(t.clone()) })
                } else {
                    None
                },
                InfoValue::Str(_) => None,
            },
            InfoItem::Ignored => None,
        };
        match g {
            Some(g) => {
                let ghost gv = g@;
                r.push(g);
                assert(r@.map_values(|g: RedisGauge| g@) =~= r0.map_values(|g: RedisGauge| g@).push(gv));
            }
            None => {}
        }
        i = i + 1;
    }
    assert(item_views(items@).take(items.len() as int) =~= item_views(items@));
    r
}

/// A redis gauge measure labelled with the server's host and port.
pub fn redis_measure(name: &str, value: Value, host: &str, port: &str) -> (m: Measure)
    ensures
        m.name@ == name@,
        m.help@ == seq!['?', '?', '?'],
        m.value == value,
        m.labels@ == Some(seq![(seq!['h', 'o', 's', 't'], host@), (seq!['p', 'o', 'r', 't'], port@)]),
        m.timestamp is None,
{
    let help = string_of(&['?', '?', '?']);
    let host_key = string_of(&['h', 'o', 's', 't']);
    let port_key = string_of(&['p', 'o', 'r', 't']);
    let labels = vec![Label::new(host_key.as_str(), host), Label::new(port_key.as_str(), port)];
    let ghost lv = labels@;
    let m = Measure { name: name.to_owned(), help, value, labels: Labels::new(labels), timestamp: None };
    assert(crate::label::label_views(lv) =~= seq![(seq!['h', 'o', 's', 't'], host@), (seq!['p', 'o', 'r', 't'], port@)]);
    m
}


pub const REDIS_DEFAULT_HOST: &'static str = "127.0.0.1";
pub const REDIS_DEFAULT_PORT: u16 = 6379;
pub const REDIS_DEFAULT_DB: i64 = 0;

/// Default server host.
pub fn default_host() -> (r: String)
    ensures
        r@ == REDIS_DEFAULT_HOST@,
{
    REDIS_DEFAULT_HOST.to_owned()
}

/// Default database.
pub fn default_db() -> (r: i64)
    ensures
        r == REDIS_DEFAULT_DB,
{
    REDIS_DEFAULT_DB
}

/// Default server port.
pub fn default_port() -> (r: u16)
    ensures
        r == REDIS_DEFAULT_PORT,
{
    REDIS_DEFAULT_PORT
}

pub fn is_default_host(host: &String) -> (r: bool)
    ensures
        r == (host@ == REDIS_DEFAULT_HOST@),
{
    crate::text::str_eq(host.as_str(), REDIS_DEFAULT_HOST)
}

pub fn is_default_db(db: &i64) -> (r: bool)
    ensures
        r == (*db == REDIS_DEFAULT_DB),
{
    *db == REDIS_DEFAULT_DB
}

pub fn is_default_port(port: &u16) -> (r: bool)
    ensures
        r == (*port == REDIS_DEFAULT_PORT),
{
    *port == REDIS_DEFAULT_PORT
}

/// The fields that time background saves and rewrites are signed gauges:
/// an integer value `x` of such a field gives the gauge `redis_` and the
/// field's name with the signed value `x`, so `-1` (no job running) stays
/// `-1`, alone and as a one-line reply.
pub proof fn lemma_job_times_signed(k: Seq<char>, x: int)
    requires
        k == "aof_current_rewrite_time_sec"@ || k == "aof_last_rewrite_time_sec"@
            || k == "rdb_current_bgsave_time_sec"@ || k == "rdb_last_bgsave_time_sec"@,
        i64::MIN <= x <= i64::MAX,
    ensures
        gauge_of(InfoItemView::Value(k, InfoValueView::Int(x)))
            matches Some((name, RedisValueView::Signed(v))) && name == redis_prefix() + k && v == x,
        gauges_of(seq![InfoItemView::Value(k, InfoValueView::Int(x))])
            == seq![(redis_prefix() + k, RedisValueView::Signed(x as i64))],
{
    let t = signed_gauge_keys();
    assert(t[0] == "aof_current_rewrite_time_sec"@);
    assert(t[1] == "aof_last_rewrite_time_sec"@);
    assert(t[2] == "rdb_current_bgsave_time_sec"@);
    assert(t[3] == "rdb_last_bgsave_time_sec"@);
    assert(t.contains(k));
    let s = seq![InfoItemView::Value(k, InfoValueView::Int(x))];
    assert(s.drop_last() =~= Seq::<InfoItemView>::empty());
    assert(s.last() == InfoItemView::Value(k, InfoValueView::Int(x)));
    assert(gauges_of(s.drop_last()) =~= Seq::<(Seq<char>, RedisValueView)>::empty());
    assert(gauges_of(s) =~= seq![(redis_prefix() + k, RedisValueView::Signed(x as i64))]);
}

} // verus!
