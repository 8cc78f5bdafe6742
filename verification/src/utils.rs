//! Small session utilities: logging counters, the spinner animation, and
//! named wall-clock measurements over caller-supplied timestamps.

use vstd::prelude::*;

verus! {

/// Counters behind the session logger. The printing itself happens in
/// the shell; the counters are kept here.
pub struct LogMetrics {
    enabled: bool,
    info_count: usize,
    error_count: usize,
    warn_count: usize,
}

impl LogMetrics {
    /// Is counting switched on?
    pub closed spec fn enabled_spec(&self) -> bool {
        self.enabled
    }

    /// The counted info messages.
    pub closed spec fn infos(&self) -> nat {
        self.info_count as nat
    }

    /// The counted error messages.
    pub closed spec fn errors_spec(&self) -> nat {
        self.error_count as nat
    }

    /// The counted warnings.
    pub closed spec fn warns(&self) -> nat {
        self.warn_count as nat
    }

    /// Creates zeroed counters, with counting off.
    pub fn new() -> (r: LogMetrics)
        ensures
            !r.enabled_spec(),
            r.infos() == 0,
            r.errors_spec() == 0,
            r.warns() == 0,
    {
        LogMetrics { enabled: false, info_count: 0, error_count: 0, warn_count: 0 }
    }

    /// Switches counting on.
    pub fn enable(&mut self)
        ensures
            final(self).enabled_spec(),
            final(self).infos() == old(self).infos(),
            final(self).errors_spec() == old(self).errors_spec(),
            final(self).warns() == old(self).warns(),
    {
        self.enabled = true;
    }

    /// Counts one info message; saturates rather than wrap.
    pub fn increment_info(&mut self)
        ensures
            final(self).infos() == (if old(self).infos() < usize::MAX {
                old(self).infos() + 1
            } else {
                old(self).infos()
            }),
            final(self).errors_spec() == old(self).errors_spec(),
            final(self).warns() == old(self).warns(),
            final(self).enabled_spec() == old(self).enabled_spec(),
    {
        if self.info_count < usize::MAX {
            self.info_count = self.info_count + 1;
        }
    }

    /// Counts one error message; saturates rather than wrap.
    pub fn increment_error(&mut self)
        ensures
            final(self).errors_spec() == (if old(self).errors_spec() < usize::MAX {
                old(self).errors_spec() + 1
            } else {
                old(self).errors_spec()
            }),
            final(self).infos() == old(self).infos(),
            final(self).warns() == old(self).warns(),
            final(self).enabled_spec() == old(self).enabled_spec(),
    {
        if self.error_count < usize::MAX {
            self.error_count = self.error_count + 1;
        }
    }

    /// Counts one warning; saturates rather than wrap.
    pub fn increment_warn(&mut self)
        ensures
            final(self).warns() == (if old(self).warns() < usize::MAX {
                old(self).warns() + 1
            } else {
                old(self).warns()
            }),
            final(self).infos() == old(self).infos(),
            final(self).errors_spec() == old(self).errors_spec(),
            final(self).enabled_spec() == old(self).enabled_spec(),
    {
        if self.warn_count < usize::MAX {
            self.warn_count = self.warn_count + 1;
        }
    }

    /// The three counters: infos, errors, warnings.
    pub fn get_stats(&self) -> (r: (usize, usize, usize))
        ensures
            r.0 == self.infos(),
            r.1 == self.errors_spec(),
            r.2 == self.warns(),
    {
        (self.info_count, self.error_count, self.warn_count)
    }
}

/// The spinner animation: a fixed ring of frames and a cursor.
pub struct KawaiiSpinner {
    frames: Vec<String>,
    current: usize,
}

impl KawaiiSpinner {
    /// The animation frames.
    pub closed spec fn frames_spec(&self) -> Seq<String> {
        self.frames@
    }

    /// The cursor into the frames.
    pub closed spec fn cursor(&self) -> nat {
        self.current as nat
    }

    /// A spinner always points at a frame.
    pub closed spec fn wf(&self) -> bool {
        self.frames@.len() > 0 && self.current < self.frames@.len()
    }

    /// Creates the spinner at its first frame.
    pub fn new() -> (r: KawaiiSpinner)
        ensures
            r.wf(),
            r.cursor() == 0,
            r.frames_spec().len() == 4,
    {
        let mut frames: Vec<String> = Vec::new();
        frames.push("(/*_*)/".to_owned());
        frames.push("(=^.^=)".to_owned());
        frames.push("(o^-^)o".to_owned());
        frames.push("\\(^o^)/".to_owned());
        KawaiiSpinner { frames, current: 0 }
    }

    /// Returns the current frame and advances the cursor, wrapping at
    /// the end of the ring.
    pub fn tick(&mut self) -> (r: String)
        requires
            old(self).wf(),
        ensures
            final(self).wf(),
            final(self).frames_spec() == old(self).frames_spec(),
            r@ == old(self).frames_spec()[old(self).cursor() as int]@,
            final(self).cursor() == ((old(self).cursor() + 1) % old(self).frames_spec().len()),
    {
        let frame = self.frames[self.current].clone();
        let len = self.frames.len();
        self.current = (self.current + 1) % len;
        frame
    }
}

/// Are the names of the open measurements pairwise distinct?
pub open spec fn names_distinct(s: Seq<(String, u64)>) -> bool {
    forall|i: int, j: int| 0 <= i < j < s.len() ==> s[i].0@ != s[j].0@
}

/// Is a measurement with this name open?
pub open spec fn measure_open(s: Seq<(String, u64)>, name: Seq<char>) -> bool {
    exists|i: int| 0 <= i < s.len() && s[i].0@ == name
}

/// The start time of the open measurement named `name`, if any.
pub open spec fn start_of(s: Seq<(String, u64)>, name: Seq<char>) -> Option<u64> {
    if measure_open(s, name) {
        Some(s[choose|i: int| 0 <= i < s.len() && s[i].0@ == name].1)
    } else {
        None
    }
}

/// Named wall-clock measurements. The caller reads the clock and hands
/// in plain millisecond timestamps; the monitor pairs starts with ends
/// and keeps the finished durations in completion order.
pub struct PerformanceMonitor {
    started: Vec<(String, u64)>,
    durations: Vec<(String, u64)>,
}

impl PerformanceMonitor {
    /// The open measurements: name and start time.
    pub closed spec fn open_measurements(&self) -> Seq<(String, u64)> {
        self.started@
    }

    /// The finished measurements: name and duration, in completion
    /// order.
    pub closed spec fn finished(&self) -> Seq<(String, u64)> {
        self.durations@
    }

    /// Open measurement names are unique.
    pub closed spec fn wf(&self) -> bool {
        names_distinct(self.started@)
    }

    /// Creates a monitor with nothing measured.
    pub fn new() -> (r: PerformanceMonitor)
        ensures
            r.wf(),
            r.open_measurements() == Seq::<(String, u64)>::empty(),
            r.finished() == Seq::<(String, u64)>::empty(),
    {
        PerformanceMonitor { started: Vec::new(), durations: Vec::new() }
    }

    /// Opens (or restarts) the measurement named `name` at time
    /// `now_ms`. Other open measurements are untouched.
    pub fn start_measurement(&mut self, name: &str, now_ms: u64)
        requires
            old(self).wf(),
        ensures
            final(self).wf(),
            final(self).finished() == old(self).finished(),
            start_of(final(self).open_measurements(), name@) == Some(now_ms),
            forall|q: Seq<char>|
                q != name@ ==> start_of(final(self).open_measurements(), q) == start_of(
                    old(self).open_measurements(),
                    q,
                ),
    {
        let pos = find_name(&self.started, name);
        let ghost before = self.started@;
        match pos {
            Some(i) => {
                self.started.remove(i);
                proof {
                    before.remove_ensures(i as int);
                    lemma_assoc_remove(before, i as int);
                }
            },
            None => {},
        }
        let ghost base = self.started@;
        self.started.push((name.to_owned(), now_ms));
        proof {
            lemma_assoc_push(base, name@, now_ms);
        }
    }

    /// Closes the measurement named `name` at time `now_ms`. When it is
    /// open, the elapsed time (zero if the clock ran backwards) joins
    /// the finished list and the name is no longer open; when it is not,
    /// nothing changes.
    pub fn end_measurement(&mut self, name: &str, now_ms: u64)
        requires
            old(self).wf(),
        ensures
            final(self).wf(),
            (match start_of(old(self).open_measurements(), name@) {
                Some(t0) => {
                    &&& !measure_open(final(self).open_measurements(), name@)
                    &&& (forall|q: Seq<char>|
                        q != name@ ==> start_of(final(self).open_measurements(), q) == start_of(
                            old(self).open_measurements(),
                            q,
                        ))
                    &&& final(self).finished().len() == old(self).finished().len() + 1
                    &&& final(self).finished()[old(self).finished().len() as int].0@ == name@
                    &&& final(self).finished()[old(self).finished().len() as int].1 == (
                    if now_ms >= t0 {
                        (now_ms - t0) as u64
                    } else {
                        0u64
                    })
                    &&& (forall|i: int|
                        0 <= i < old(self).finished().len() ==> final(self).finished()[i] == old(
                            self,
                        ).finished()[i])
                },
                None => {
                    &&& final(self).open_measurements() == old(self).open_measurements()
                    &&& final(self).finished() == old(self).finished()
                },
            }),
    {
        let pos = find_name(&self.started, name);
        match pos {
            Some(i) => {
                let ghost before = self.started@;
                let started_at = self.started[i].1;
                proof {
                    lemma_assoc_at(before, i as int);
                }
                self.started.remove(i);
                proof {
                    before.remove_ensures(i as int);
                    lemma_assoc_remove(before, i as int);
                }
                let elapsed = if now_ms >= started_at {
                    now_ms - started_at
                } else {
                    0
                };
                self.durations.push((name.to_owned(), elapsed));
            },
            None => {},
        }
    }

    /// The finished measurements: name and duration, in completion
    /// order.
    pub fn measurements(&self) -> (r: &Vec<(String, u64)>)
        ensures
            r@ == self.finished(),
    {
        &self.durations
    }
}

/// The index of the entry named `name`, if any.
fn find_name(s: &Vec<(String, u64)>, name: &str) -> (r: Option<usize>)
    requires
        names_distinct(s@),
    ensures
        (match r {
            Some(i) => i < s@.len() && s@[i as int].0@ == name@,
            None => !measure_open(s@, name@),
        }),
{
    let owned = name.to_owned();
    let n = s.len();
    let mut i: usize = 0;
    while i < n
        invariant
            n == s@.len(),
            i <= n,
            owned@ == name@,
            forall|k: int| 0 <= k < i ==> s@[k].0@ != name@,
        decreases n - i,
    {
        if s[i].0 == owned {
            return Some(i);
        }
        i = i + 1;
    }
    None
}

/// With distinct names, the entry at a name's index carries its start
/// time.
proof fn lemma_assoc_at(s: Seq<(String, u64)>, i: int)
    requires
        names_distinct(s),
        0 <= i < s.len(),
    ensures
        start_of(s, s[i].0@) == Some(s[i].1),
{
    assert(measure_open(s, s[i].0@));
    let j = choose|j: int| 0 <= j < s.len() && s[j].0@ == s[i].0@;
    if j != i {
        assert(s[j].0@ != s[i].0@ || j == i);
    }
}

/// Removing entry `i` closes exactly its name.
proof fn lemma_assoc_remove(s: Seq<(String, u64)>, i: int)
    requires
        names_distinct(s),
        0 <= i < s.len(),
    ensures
        names_distinct(s.remove(i)),
        !measure_open(s.remove(i), s[i].0@),
        forall|q: Seq<char>| q != s[i].0@ ==> start_of(s.remove(i), q) == start_of(s, q),
{
    let t = s.remove(i);
    s.remove_ensures(i);
    assert forall|p: int, q: int| 0 <= p < q < t.len() implies t[p].0@ != t[q].0@ by {
        assert(t[p] == if p < i { s[p] } else { s[p + 1] });
        assert(t[q] == if q < i { s[q] } else { s[q + 1] });
    }
    if measure_open(t, s[i].0@) {
        let j = choose|j: int| 0 <= j < t.len() && t[j].0@ == s[i].0@;
        assert(t[j] == if j < i { s[j] } else { s[j + 1] });
    }
    assert forall|q: Seq<char>| q != s[i].0@ implies start_of(t, q) == start_of(s, q) by {
        if measure_open(s, q) {
            let j = choose|j: int| 0 <= j < s.len() && s[j].0@ == q;
            assert(j != i);
            let jt: int = if j < i { j } else { j - 1 };
            assert(t[jt] == s[j]);
            assert(measure_open(t, q));
            let k = choose|k: int| 0 <= k < t.len() && t[k].0@ == q;
            assert(t[k] == if k < i { s[k] } else { s[k + 1] });
            if k != jt {
                assert(t[k].0@ != t[jt].0@ || k == jt);
            }
            let m = choose|m: int| 0 <= m < s.len() && s[m].0@ == q;
            if m != j {
                assert(s[m].0@ != s[j].0@ || m == j);
            }
        } else {
            if measure_open(t, q) {
                let k = choose|k: int| 0 <= k < t.len() && t[k].0@ == q;
                assert(t[k] == if k < i { s[k] } else { s[k + 1] });
            }
        }
    }
}

/// Appending a fresh name opens exactly it.
proof fn lemma_assoc_push(s: Seq<(String, u64)>, name: Seq<char>, now: u64)
    requires
        names_distinct(s),
        !measure_open(s, name),
    ensures
        forall|v: (String, u64)|
            v.0@ == name && v.1 == now ==> {
                &&& names_distinct(s.push(v))
                &&& start_of(s.push(v), name) == Some(now)
                &&& (forall|q: Seq<char>| q != name ==> start_of(s.push(v), q) == start_of(s, q))
            },
{
    assert forall|v: (String, u64)| v.0@ == name && v.1 == now implies {
        &&& names_distinct(s.push(v))
        &&& start_of(s.push(v), name) == Some(now)
        &&& (forall|q: Seq<char>| q != name ==> start_of(s.push(v), q) == start_of(s, q))
    } by {
        let t = s.push(v);
        assert forall|p: int, q: int| 0 <= p < q < t.len() implies t[p].0@ != t[q].0@ by {
            if q < s.len() {
            } else {
                assert(t[q].0@ == name);
                assert(t[p] == s[p]);
            }
        }
        assert(t[t.len() - 1].0@ == name);
        assert(measure_open(t, name));
        let j = choose|j: int| 0 <= j < t.len() && t[j].0@ == name;
        if j < s.len() {
            assert(s[j].0@ == name);
        }
        assert forall|q: Seq<char>| q != name implies start_of(t, q) == start_of(s, q) by {
            if measure_open(s, q) {
                let k = choose|k: int| 0 <= k < s.len() && s[k].0@ == q;
                assert(t[k] == s[k]);
                assert(measure_open(t, q));
                let k2 = choose|k2: int| 0 <= k2 < t.len() && t[k2].0@ == q;
                assert(k2 < s.len() || t[k2].0@ == name);
                assert(s[k2].0@ == q);
                if k2 != k {
                    assert(s[k2].0@ != s[k].0@ || k2 == k);
                }
            } else {
                if measure_open(t, q) {
                    let k2 = choose|k2: int| 0 <= k2 < t.len() && t[k2].0@ == q;
                    if k2 < s.len() {
                        assert(s[k2].0@ == q);
                    }
                }
            }
        }
    }
}

} // verus!
