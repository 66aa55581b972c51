use vstd::prelude::*;

verus! {

/// Mathematical model of a scanner: the bytes of the line together with the
/// cursor, the tab origin, the pending-column counter and the reserved
/// minimum-offset floor.
pub ghost struct ScanState {
    pub s: Seq<u8>,
    pub cur: int,
    pub tab: int,
    pub pend: int,
    pub floor: int,
}

/// Well-formedness of a scanner state: the cursor stays inside the line, the
/// tab origin never passes the cursor, and at most a partial tab stop is
/// pending.
pub open spec fn wf_state(st: ScanState) -> bool {
    &&& 0 <= st.tab <= st.cur <= st.s.len()
    &&& 0 <= st.pend < 4
    &&& 0 <= st.floor
}

/// The byte about to be consumed, if the cursor has not reached the end.
pub open spec fn peek_spec(st: ScanState) -> Option<u8> {
    if st.cur < st.s.len() {
        Some(st.s[st.cur])
    } else {
        None
    }
}

/// End of meaningful content: no byte left, or a carriage return or line
/// feed at the cursor.
pub open spec fn at_eol_spec(st: ScanState) -> bool {
    match peek_spec(st) {
        None => true,
        Some(b) => b == 13 || b == 10,
    }
}

/// The state after consuming exactly one byte.
pub open spec fn advanced(st: ScanState) -> ScanState {
    ScanState { cur: st.cur + 1, ..st }
}

pub open spec fn is_space_or_tab(b: u8) -> bool {
    b == 32 || b == 9
}

/// Number of columns a tab at the cursor spans: up to the next multiple of
/// four columns, measured from the tab origin.
pub open spec fn tab_width(st: ScanState) -> int {
    4 - (st.cur - st.tab) % 4
}

/// One virtual column of leading whitespace, if one is available: a pending
/// column left over from a partial tab stop is taken first; otherwise a
/// space byte yields one column, and a tab byte yields one column now while
/// its remaining columns become pending and the tab origin moves to the byte
/// after the tab.
pub open spec fn one_col(st: ScanState) -> Option<ScanState> {
    if st.pend > 0 {
        Some(ScanState { pend: st.pend - 1, ..st })
    } else if st.cur < st.s.len() && st.s[st.cur] == 32 {
        Some(ScanState { cur: st.cur + 1, ..st })
    } else if st.cur < st.s.len() && st.s[st.cur] == 9 {
        Some(
            ScanState {
                cur: st.cur + 1,
                tab: st.cur + 1,
                pend: tab_width(st) - 1,
                ..st
            },
        )
    } else {
        None
    }
}

/// Consuming up to `n` virtual columns of leading whitespace: the state
/// afterwards and the count actually consumed (fewer than `n` only when a
/// non-whitespace byte or the end of the bytes is met first).
pub open spec fn scan_cols(st: ScanState, n: nat) -> (ScanState, nat)
    decreases n,
{
    if n == 0 {
        (st, 0)
    } else {
        match one_col(st) {
            Some(st1) => {
                let r = scan_cols(st1, (n - 1) as nat);
                (r.0, (r.1 + 1) as nat)
            },
            None => (st, 0),
        }
    }
}

/// Column accounting is associative across the pending-column carry: scanning
/// `a` columns and then `b` columns from the state the first scan left
/// reaches the same state as scanning `a + b` columns at once, and the two
/// consumed counts add up to the count of the single scan.  This is the
/// contract `scan_space` obeys, so two consecutive calls with `a` and `b`
/// consume the same total and end at the same cursor as one call with
/// `a + b`.
pub proof fn lemma_scan_cols_split(st: ScanState, a: nat, b: nat)
    ensures
        scan_cols(scan_cols(st, a).0, b).0 == scan_cols(st, a + b).0,
        scan_cols(st, a).1 + scan_cols(scan_cols(st, a).0, b).1 == scan_cols(st, a + b).1,
    decreases a,
{
    if a == 0 {
    } else {
        match one_col(st) {
            Some(st1) => {
                lemma_scan_cols_split(st1, (a - 1) as nat, b);
            },
            None => {
                assert(scan_cols(st, a) == (st, 0nat));
                assert(scan_cols(st, a + b) == (st, 0nat));
                if b > 0 {
                    assert(scan_cols(st, b) == (st, 0nat));
                }
            },
        }
    }
}

/// The one-column-or-end rule that closes every marker: from `st`, either
/// exactly one further virtual column of whitespace is consumed, or the line
/// has ended at the position the attempt reaches.
pub open spec fn gap_ok(st: ScanState) -> bool {
    scan_cols(st, 1).1 == 1 || at_eol_spec(scan_cols(st, 1).0)
}

/// The state after the closing one-column scan of a marker.
pub open spec fn gap_final(st: ScanState) -> ScanState {
    scan_cols(st, 1).0
}

/// Whether a blockquote marker stands at the line start: after at most three
/// virtual columns of indent, a `>` byte.
pub open spec fn blockquote_found(st: ScanState) -> bool {
    peek_spec(scan_cols(st, 3).0) == Some(62u8)
}

/// The state after a successful blockquote attempt: the indent, the `>`
/// byte, and optionally one further virtual column of whitespace.
pub open spec fn blockquote_final(st: ScanState) -> ScanState {
    gap_final(advanced(scan_cols(st, 3).0))
}

/// What a task-list checkbox attempt yields: after at most three virtual
/// columns of indent, `[`, then a space (unchecked) or `x`/`X` (checked),
/// then `]`, then one further column of whitespace or end of line.  `None`
/// when any of these is missing.
pub open spec fn task_marker_spec(st: ScanState) -> Option<(bool, ScanState)> {
    let st1 = scan_cols(st, 3).0;
    if peek_spec(st1) == Some(91u8) {
        let st2 = advanced(st1);
        match peek_spec(st2) {
            Some(b) => {
                if b == 32 || b == 120 || b == 88 {
                    let st3 = advanced(st2);
                    if peek_spec(st3) == Some(93u8) {
                        let st4 = advanced(st3);
                        if gap_ok(st4) {
                            Some((b != 32, gap_final(st4)))
                        } else {
                            None
                        }
                    } else {
                        None
                    }
                } else {
                    None
                }
            },
            None => None,
        }
    } else {
        None
    }
}

pub open spec fn is_bullet_byte(b: u8) -> bool {
    b == 45 || b == 43 || b == 42
}

pub open spec fn is_digit_byte(b: u8) -> bool {
    48 <= b <= 57
}

pub open spec fn digit_val(b: u8) -> nat {
    (b - 48) as nat
}

/// An ordered-list ordinal clamped to what a `u64` can hold.
pub open spec fn sat64(n: nat) -> u64 {
    if n > u64::MAX {
        u64::MAX
    } else {
        n as u64
    }
}

/// The tail of an ordered-list marker attempt, entered with the digits read
/// so far accumulated in `val`: further digits extend the value in decimal,
/// then a `.` or `)` terminator must follow, then one column of whitespace
/// or end of line.  `None` when the run ends any other way.
pub open spec fn ordered_tail(st: ScanState, val: nat) -> Option<(u8, nat, ScanState)>
    decreases st.s.len() - st.cur,
{
    if st.cur < st.s.len() {
        let b = st.s[st.cur];
        let st1 = advanced(st);
        if is_digit_byte(b) {
            ordered_tail(st1, val * 10 + digit_val(b))
        } else if b == 46 || b == 41 {
            if gap_ok(st1) {
                Some((b, val, gap_final(st1)))
            } else {
                None
            }
        } else {
            None
        }
    } else {
        None
    }
}

/// What a list-marker attempt yields: after at most three virtual columns
/// of indent, either a bullet byte (`-`, `+`, `*`) followed by one column
/// of whitespace or end of line, or a digit run with its terminator as
/// `ordered_tail` says.  A bullet carries ordinal 0; an ordered marker
/// carries its accumulated decimal value and its terminator byte.
pub open spec fn list_marker_spec(st: ScanState) -> Option<(u8, nat, ScanState)> {
    let st1 = scan_cols(st, 3).0;
    match peek_spec(st1) {
        Some(b) => {
            if is_bullet_byte(b) {
                if gap_ok(advanced(st1)) {
                    Some((b, 0, gap_final(advanced(st1))))
                } else {
                    None
                }
            } else if is_digit_byte(b) {
                ordered_tail(advanced(st1), digit_val(b))
            } else {
                None
            }
        },
        None => None,
    }
}

/// One decimal step of the clamped accumulator: extending a clamped value
/// with digit `d` by the guarded executable formula equals clamping the
/// extended exact value.
proof fn lemma_sat64_step(val: u64, gval: nat, d: u64)
    requires
        val == sat64(gval),
        d <= 9,
    ensures
        val <= (u64::MAX - d) / 10 ==> val * 10 + d == sat64((gval * 10 + d) as nat),
        val > (u64::MAX - d) / 10 ==> u64::MAX == sat64((gval * 10 + d) as nat),
{
    let q = (u64::MAX - d) / 10;
    vstd::arithmetic::div_mod::lemma_fundamental_div_mod((u64::MAX - d) as int, 10);
    vstd::arithmetic::div_mod::lemma_mod_bound((u64::MAX - d) as int, 10);
    assert(10 * q <= u64::MAX - d < 10 * q + 10);
    if val <= q {
        assert(val * 10 <= q * 10) by (nonlinear_arith)
            requires
                val <= q,
        ;
        assert(gval <= u64::MAX);
        assert(gval * 10 + d <= u64::MAX);
    } else {
        assert(val * 10 >= (q + 1) * 10) by (nonlinear_arith)
            requires
                val >= q + 1,
        ;
        if gval <= u64::MAX {
            assert(gval * 10 + d > u64::MAX);
        } else {
            assert(gval * 10 + d > u64::MAX) by (nonlinear_arith)
                requires
                    gval > u64::MAX,
            ;
        }
    }
}

/// A speculative scanner over the remaining bytes of one input line.
///
/// It owns a borrowed view of the bytes plus cursor and virtual-column
/// state, and offers marker recognizers with all-or-nothing semantics: a
/// failed attempt leaves the scanner exactly as it found it.
#[derive(Clone, Copy)]
pub struct LineStart<'a> {
    bytes: &'a [u8],
    cur: usize,
    tab_start: usize,
    spaces_remaining: usize,
    min_hrule_offset: usize,
}

impl<'a> View for LineStart<'a> {
    type V = ScanState;

    closed spec fn view(&self) -> ScanState {
        ScanState {
            s: self.bytes@,
            cur: self.cur as int,
            tab: self.tab_start as int,
            pend: self.spaces_remaining as int,
            floor: self.min_hrule_offset as int,
        }
    }
}

impl<'a> LineStart<'a> {
    pub open spec fn wf(self) -> bool {
        wf_state(self@)
    }

    /// A scanner positioned at offset 0 of the given line bytes.
    pub fn new(bytes: &'a [u8]) -> (r: Self)
        ensures
            r.wf(),
            r@.s == bytes@,
            r@.cur == 0,
            r@.tab == 0,
            r@.pend == 0,
            r@.floor == 0,
    {
        Self { bytes, cur: 0, tab_start: 0, spaces_remaining: 0, min_hrule_offset: 0 }
    }

    /// True while the cursor has not reached the end of the bytes.
    pub fn has_next(&self) -> (r: bool)
        ensures
            r == (self@.cur < self@.s.len()),
    {
        self.cur < self.bytes.len()
    }

    /// The byte the scanner is about to consume, without consuming it.
    pub fn peek(&self) -> (r: Option<u8>)
        requires
            self.wf(),
        ensures
            r == peek_spec(self@),
    {
        if self.cur < self.bytes.len() {
            Some(self.bytes[self.cur])
        } else {
            None
        }
    }

    /// Consumes and returns the byte at the cursor; callers must first check
    /// that one is left.
    pub fn next(&mut self) -> (r: u8)
        requires
            old(self).wf(),
            old(self)@.cur < old(self)@.s.len(),
        ensures
            final(self).wf(),
            final(self)@ == advanced(old(self)@),
            r == old(self)@.s[old(self)@.cur],
    {
        let ch = self.bytes[self.cur];
        self.cur = self.cur + 1;
        ch
    }

    /// True when the line's meaningful content has ended: no byte left, or a
    /// carriage return or line feed at the cursor.
    pub fn is_at_eol(&self) -> (r: bool)
        requires
            self.wf(),
        ensures
            r == at_eol_spec(self@),
    {
        match self.peek() {
            None => true,
            Some(b) => b == 13 || b == 10,
        }
    }

    /// Advances the cursor past a maximal run of space and tab bytes with no
    /// column accounting, and clears any pending columns.
    pub fn skip_spaces(&mut self)
        requires
            old(self).wf(),
        ensures
            final(self).wf(),
            final(self)@.s == old(self)@.s,
            final(self)@.tab == old(self)@.tab,
            final(self)@.floor == old(self)@.floor,
            final(self)@.pend == 0,
            old(self)@.cur <= final(self)@.cur <= final(self)@.s.len(),
            forall|i: int|
                old(self)@.cur <= i < final(self)@.cur ==> is_space_or_tab(old(self)@.s[i]),
            final(self)@.cur < final(self)@.s.len() ==> !is_space_or_tab(
                final(self)@.s[final(self)@.cur],
            ),
    {
        self.spaces_remaining = 0;
        while self.cur < self.bytes.len() && (self.bytes[self.cur] == 32 || self.bytes[self.cur]
            == 9)
            invariant
                self.wf(),
                self@.s == old(self)@.s,
                self@.tab == old(self)@.tab,
                self@.floor == old(self)@.floor,
                self@.pend == 0,
                old(self)@.cur <= self@.cur <= self@.s.len(),
                forall|i: int| old(self)@.cur <= i < self@.cur ==> is_space_or_tab(old(self)@.s[i]),
            decreases self@.s.len() - self@.cur,
        {
            self.cur = self.cur + 1;
        }
    }

    /// Consumes up to `n` virtual columns of leading whitespace, tab-expanded
    /// to four-column stops measured from the tab origin, and returns the
    /// number of columns actually consumed.  A partially used tab stop leaves
    /// its unused columns pending for a later call.
    pub fn scan_space(&mut self, n: usize) -> (r: usize)
        requires
            old(self).wf(),
        ensures
            final(self).wf(),
            final(self)@ == scan_cols(old(self)@, n as nat).0,
            r == scan_cols(old(self)@, n as nat).1,
            r <= n,
    {
        let ghost st0 = self@;
        let mut rem: usize = n;
        loop
            invariant
                self.wf(),
                rem <= n,
                scan_cols(st0, n as nat).0 == scan_cols(self@, rem as nat).0,
                scan_cols(st0, n as nat).1 == (n - rem) + scan_cols(self@, rem as nat).1,
            ensures
                self.wf(),
                rem <= n,
                scan_cols(st0, n as nat).0 == self@,
                scan_cols(st0, n as nat).1 == n - rem,
            decreases rem,
        {
            if rem == 0 {
                break ;
            }
            if self.spaces_remaining > 0 {
                self.spaces_remaining = self.spaces_remaining - 1;
                rem = rem - 1;
            } else if self.cur < self.bytes.len() && self.bytes[self.cur] == 32 {
                self.cur = self.cur + 1;
                rem = rem - 1;
            } else if self.cur < self.bytes.len() && self.bytes[self.cur] == 9 {
                let w: usize = 4 - (self.cur - self.tab_start) % 4;
                self.spaces_remaining = w - 1;
                self.cur = self.cur + 1;
                self.tab_start = self.cur;
                rem = rem - 1;
            } else {
                break ;
            }
        }
        n - rem
    }

    /// If the byte at the cursor is `ch`, consumes it; otherwise leaves the
    /// scanner untouched.
    pub fn scan_ch(&mut self, ch: u8) -> (r: bool)
        requires
            old(self).wf(),
        ensures
            final(self).wf(),
            r == (peek_spec(old(self)@) == Some(ch)),
            r ==> final(self)@ == advanced(old(self)@),
            !r ==> final(self)@ == old(self)@,
    {
        if self.cur < self.bytes.len() && self.bytes[self.cur] == ch {
            self.cur = self.cur + 1;
            true
        } else {
            false
        }
    }

    /// Attempts a blockquote marker: at most three virtual columns of
    /// indent, a `>` byte, then optionally one further virtual column of
    /// whitespace.  On failure the scanner is restored exactly.
    pub fn scan_blockquote_marker(&mut self) -> (r: bool)
        requires
            old(self).wf(),
        ensures
            final(self).wf(),
            r == blockquote_found(old(self)@),
            r ==> final(self)@ == blockquote_final(old(self)@),
            !r ==> final(self)@ == old(self)@,
    {
        let saved = *self;
        self.scan_space(3);
        if self.scan_ch(62) {
            self.scan_space(1);
            true
        } else {
            *self = saved;
            false
        }
    }

    /// Attempts a task-list checkbox: at most three virtual columns of
    /// indent, `[`, a space or `x`/`X`, `]`, then one further column of
    /// whitespace or end of line.  Returns the checked state on success; on
    /// failure the scanner is restored exactly.
    pub fn scan_task_list_marker(&mut self) -> (r: Option<bool>)
        requires
            old(self).wf(),
        ensures
            final(self).wf(),
            task_marker_spec(old(self)@) matches Some(q) ==> (r == Some(q.0) && final(self)@
                == q.1),
            task_marker_spec(old(self)@) is None ==> (r is None && final(self)@ == old(self)@),
    {
        let saved = *self;
        self.scan_space(3);
        if !self.scan_ch(91) {
            *self = saved;
            return None;
        }
        let is_checked: bool;
        match self.peek() {
            Some(b) => {
                if b == 32 {
                    self.next();
                    is_checked = false;
                } else if b == 120 || b == 88 {
                    self.next();
                    is_checked = true;
                } else {
                    *self = saved;
                    return None;
                }
            },
            None => {
                *self = saved;
                return None;
            },
        }
        if !self.scan_ch(93) {
            *self = saved;
            return None;
        }
        let one = self.scan_space(1);
        if one == 1 || self.is_at_eol() {
            Some(is_checked)
        } else {
            *self = saved;
            None
        }
    }

    /// Attempts a list marker: at most three virtual columns of indent, then
    /// either a bullet (`-`, `+`, `*`) or an ordered marker (a digit run
    /// closed by `.` or `)`), each followed by one column of whitespace or
    /// end of line.  Returns the marker or terminator byte and the ordinal
    /// (0 for a bullet; the decimal value, clamped to `u64`, for an ordered
    /// marker).  On failure the scanner is restored exactly.
    pub fn scan_list_marker(&mut self) -> (r: Option<(u8, u64)>)
        requires
            old(self).wf(),
        ensures
            final(self).wf(),
            list_marker_spec(old(self)@) matches Some(q) ==> (r matches Some(p) && p.0 == q.0
                && p.1 == sat64(q.1) && final(self)@ == q.2),
            list_marker_spec(old(self)@) is None ==> (r is None && final(self)@ == old(self)@),
    {
        let saved = *self;
        self.scan_space(3);
        match self.peek() {
            Some(ch) => {
                if ch == 45 || ch == 43 || ch == 42 {
                    self.next();
                    let one = self.scan_space(1);
                    if one == 1 || self.is_at_eol() {
                        Some((ch, 0u64))
                    } else {
                        *self = saved;
                        None
                    }
                } else if 48 <= ch && ch <= 57 {
                    self.next();
                    let mut val: u64 = (ch - 48) as u64;
                    let ghost mut gval: nat = digit_val(ch);
                    #[verifier::loop_isolation(false)]
                    loop
                        invariant
                            self.wf(),
                            val == sat64(gval),
                            list_marker_spec(old(self)@) == ordered_tail(self@, gval),
                        decreases self@.s.len() - self@.cur,
                    {
                        match self.peek() {
                            Some(c2) => {
                                self.next();
                                if 48 <= c2 && c2 <= 57 {
                                    let d = (c2 - 48) as u64;
                                    proof {
                                        lemma_sat64_step(val, gval, d);
                                        gval = gval * 10 + digit_val(c2);
                                    }
                                    val = if val <= (u64::MAX - d) / 10 {
                                        val * 10 + d
                                    } else {
                                        u64::MAX
                                    };
                                } else if c2 == 41 || c2 == 46 {
                                    let one = self.scan_space(1);
                                    if one == 1 || self.is_at_eol() {
                                        return Some((c2, val));
                                    } else {
                                        break ;
                                    }
                                } else {
                                    break ;
                                }
                            },
                            None => break,
                        }
                    }
                    *self = saved;
                    None
                } else {
                    *self = saved;
                    None
                }
            },
            None => {
                *self = saved;
                None
            },
        }
    }

    /// The number of bytes consumed so far: the cursor's offset into the line.
    pub fn bytes_scanned(&self) -> (r: usize)
        ensures
            r == self@.cur,
    {
        self.cur
    }
}

} // verus!
