//! The worker: the queue of requests from the controller and the rules by
//! which they become tasks, the tasks themselves, and how the selected
//! monitor's state becomes a snapshot for the controller.
use vstd::prelude::*;

use crate::capabilities::Capabilities;
use crate::controller_types::{
    FeatureSnapshot, InputRoute, MonitorChoice, MonitorSnapshot, PictureBackend, RequestView,
    WorkerEvent, WorkerRequest, BRIGHTNESS_CODE, CONTRAST_CODE, INPUT_CODE, INPUT_DP_VALUE,
    INPUT_HDMI_VALUE, INPUT_USB_C_VALUE,
};
use crate::counting::{count_where, first_where, last_where, lemma_count_prefix_step,
    lemma_first_where, lemma_first_where_is, lemma_full_prefix, lemma_last_where};
use crate::hdr::{DisplayMonitorHandle, DisplayTargetId, HdrState};
use crate::monitor_text::{heading_of, monitor_heading};
use crate::ddc::{DdcError, VcpFeature};
use crate::monitor_text::{compact_input_label, compact_label_of};
use crate::profile::{control_named, label_of, MonitorProfile, PhysicalMonitor};
use crate::profiles::{is_u4025qw_profile, profile_for_model};
use crate::text::{ascii_lower, chars_of, concat2, concat3, decimal_seq, decimal_string, hex_seq,
    hex_string, string_from_chars, trim_char, trim_char_seq};

verus! {

/// One unit of work for the worker.
#[derive(Clone, Debug, Eq, PartialEq)]
pub enum WorkerTask {
    RefreshAll,
    ReadSnapshot,
    RefreshAutostart,
    SelectMonitor { key: String },
    SetAutostart { enabled: bool, quiet: bool },
    SetHdr { enabled: bool, use_cached_ddc_values: bool },
    SetSdrContentBrightness { percent: u32 },
    WriteVcp { code: u8, value: u32, input_status: bool },
}

pub enum TaskView {
    RefreshAll,
    ReadSnapshot,
    RefreshAutostart,
    SelectMonitor { key: Seq<char> },
    SetAutostart { enabled: bool, quiet: bool },
    SetHdr { enabled: bool, use_cached_ddc_values: bool },
    SetSdrContentBrightness { percent: u32 },
    WriteVcp { code: u8, value: u32, input_status: bool },
}

impl View for WorkerTask {
    type V = TaskView;

    open spec fn view(&self) -> TaskView {
        match *self {
            WorkerTask::RefreshAll => TaskView::RefreshAll,
            WorkerTask::ReadSnapshot => TaskView::ReadSnapshot,
            WorkerTask::RefreshAutostart => TaskView::RefreshAutostart,
            WorkerTask::SelectMonitor { key } => TaskView::SelectMonitor { key: key@ },
            WorkerTask::SetAutostart { enabled, quiet } => TaskView::SetAutostart { enabled, quiet },
            WorkerTask::SetHdr { enabled, use_cached_ddc_values } => TaskView::SetHdr {
                enabled,
                use_cached_ddc_values,
            },
            WorkerTask::SetSdrContentBrightness { percent } => TaskView::SetSdrContentBrightness {
                percent,
            },
            WorkerTask::WriteVcp { code, value, input_status } => TaskView::WriteVcp {
                code,
                value,
                input_status,
            },
        }
    }
}

/// A brightness or contrast write, by DDC or through Windows.
pub open spec fn is_picture_write(r: RequestView) -> bool {
    match r {
        RequestView::WriteFeature { code, .. } => code == BRIGHTNESS_CODE || code == CONTRAST_CODE,
        RequestView::SetSdrContentBrightness { .. } => true,
        _ => false,
    }
}

pub open spec fn not_picture_write() -> spec_fn(RequestView) -> bool {
    |r: RequestView| !is_picture_write(r)
}

/// The VCP write a request asks for: code, value, and whether it reports
/// an input change.
pub open spec fn write_of(r: RequestView) -> Option<(u8, u32, bool)> {
    match r {
        RequestView::WriteFeature { code, value } => Some((code, value, false)),
        RequestView::SetInput { value } => Some((INPUT_CODE, value, true)),
        _ => None,
    }
}

pub open spec fn writes_code(code: u8) -> spec_fn(RequestView) -> bool {
    |r: RequestView| write_of(r) matches Some(w) && w.0 == code
}

pub open spec fn not_writes_code(code: u8) -> spec_fn(RequestView) -> bool {
    |r: RequestView| !(write_of(r) matches Some(w) && w.0 == code)
}

pub open spec fn is_sdr_write() -> spec_fn(RequestView) -> bool {
    |r: RequestView| r is SetSdrContentBrightness
}

pub open spec fn not_sdr_write() -> spec_fn(RequestView) -> bool {
    |r: RequestView| !(r is SetSdrContentBrightness)
}

pub open spec fn not_snapshot_read() -> spec_fn(RequestView) -> bool {
    |r: RequestView| !(r is ReadSnapshot)
}

/// Queueing a request: a cancel removes the queued picture writes and is
/// not itself queued; anything else waits at the back.
pub open spec fn push_spec(q: Seq<RequestView>, r: RequestView) -> Seq<RequestView> {
    if r is CancelPictureWrites {
        q.filter(not_picture_write())
    } else {
        q.push(r)
    }
}

/// A write for a code absorbs every later queued write for the same code,
/// and the newest of them decides the value.
pub open spec fn coalesce_write_spec(rest: Seq<RequestView>, code: u8, value: u32, input_status: bool) -> (
    Seq<RequestView>,
    TaskView,
) {
    let kept = rest.filter(not_writes_code(code));
    match last_where(rest, writes_code(code)) {
        Some(i) => (
            kept,
            TaskView::WriteVcp {
                code,
                value: write_of(rest[i])->Some_0.1,
                input_status: write_of(rest[i])->Some_0.2,
            },
        ),
        None => (kept, TaskView::WriteVcp { code, value, input_status }),
    }
}

/// A Windows SDR brightness write absorbs every later queued one, and the
/// newest decides the percentage.
pub open spec fn coalesce_sdr_spec(rest: Seq<RequestView>, percent: u32) -> (Seq<RequestView>, TaskView) {
    let kept = rest.filter(not_sdr_write());
    match last_where(rest, is_sdr_write()) {
        Some(i) => (
            kept,
            TaskView::SetSdrContentBrightness { percent: rest[i]->SetSdrContentBrightness_percent },
        ),
        None => (kept, TaskView::SetSdrContentBrightness { percent }),
    }
}

/// Taking the next task from the front of the queue: snapshot reads and
/// writes coalesce with the later queued ones of their kind.
pub open spec fn pop_spec(q: Seq<RequestView>) -> (Seq<RequestView>, Option<TaskView>)
    decreases q.len(),
{
    if q.len() == 0 {
        (q, None)
    } else {
        let rest = q.subrange(1, q.len() as int);
        match q[0] {
            RequestView::RefreshAll => (rest, Some(TaskView::RefreshAll)),
            RequestView::ReadSnapshot => (
                rest.filter(not_snapshot_read()),
                Some(TaskView::ReadSnapshot),
            ),
            RequestView::RefreshAutostart => (rest, Some(TaskView::RefreshAutostart)),
            RequestView::SelectMonitor { key } => (rest, Some(TaskView::SelectMonitor { key })),
            RequestView::SetAutostart { enabled, quiet } => (
                rest,
                Some(TaskView::SetAutostart { enabled, quiet }),
            ),
            RequestView::SetHdr { enabled, use_cached_ddc_values } => (
                rest,
                Some(TaskView::SetHdr { enabled, use_cached_ddc_values }),
            ),
            RequestView::SetSdrContentBrightness { percent } => {
                let (kept, task) = coalesce_sdr_spec(rest, percent);
                (kept, Some(task))
            },
            RequestView::CancelPictureWrites => pop_spec(rest),
            RequestView::WriteFeature { code, value } => {
                let (kept, task) = coalesce_write_spec(rest, code, value, false);
                (kept, Some(task))
            },
            RequestView::SetInput { value } => {
                let (kept, task) = coalesce_write_spec(rest, INPUT_CODE, value, true);
                (kept, Some(task))
            },
        }
    }
}

pub open spec fn requests_view(s: Seq<WorkerRequest>) -> Seq<RequestView> {
    s.map_values(|r: WorkerRequest| r@)
}

/// A copy of a request.
pub fn copy_request(r: &WorkerRequest) -> (c: WorkerRequest)
    ensures
        c == *r,
{
    match r {
        WorkerRequest::RefreshAll => WorkerRequest::RefreshAll,
        WorkerRequest::ReadSnapshot => WorkerRequest::ReadSnapshot,
        WorkerRequest::RefreshAutostart => WorkerRequest::RefreshAutostart,
        WorkerRequest::SelectMonitor { key } => WorkerRequest::SelectMonitor { key: key.clone() },
        WorkerRequest::SetAutostart { enabled, quiet } => WorkerRequest::SetAutostart {
            enabled: *enabled,
            quiet: *quiet,
        },
        WorkerRequest::SetHdr { enabled, use_cached_ddc_values } => WorkerRequest::SetHdr {
            enabled: *enabled,
            use_cached_ddc_values: *use_cached_ddc_values,
        },
        WorkerRequest::SetSdrContentBrightness { percent } =>
            WorkerRequest::SetSdrContentBrightness { percent: *percent },
        WorkerRequest::CancelPictureWrites => WorkerRequest::CancelPictureWrites,
        WorkerRequest::WriteFeature { code, value } => WorkerRequest::WriteFeature {
            code: *code,
            value: *value,
        },
        WorkerRequest::SetInput { value } => WorkerRequest::SetInput { value: *value },
    }
}

fn picture_write(r: &WorkerRequest) -> (b: bool)
    ensures
        b == is_picture_write(r@),
{
    match r {
        WorkerRequest::WriteFeature { code, .. } => *code == BRIGHTNESS_CODE || *code
            == CONTRAST_CODE,
        WorkerRequest::SetSdrContentBrightness { .. } => true,
        _ => false,
    }
}

/// The VCP write a request asks for.
fn write_request(r: &WorkerRequest) -> (w: Option<(u8, u32, bool)>)
    ensures
        w == write_of(r@),
{
    match r {
        WorkerRequest::WriteFeature { code, value } => Some((*code, *value, false)),
        WorkerRequest::SetInput { value } => Some((INPUT_CODE, *value, true)),
        _ => None,
    }
}

/// The requests that keep `keep`, in order.
proof fn lemma_filter_step(s: Seq<RequestView>, p: spec_fn(RequestView) -> bool, i: int)
    requires
        0 <= i < s.len(),
    ensures
        s.subrange(0, i + 1).filter(p) == (if p(s[i]) {
            s.subrange(0, i).filter(p).push(s[i])
        } else {
            s.subrange(0, i).filter(p)
        }),
{
    reveal(Seq::filter);
    assert(s.subrange(0, i + 1).drop_last() =~= s.subrange(0, i));
}

/// The filters by which queued requests are dropped: picture writes,
/// snapshot reads, Windows SDR brightness writes.
pub open spec fn retain_filter(which: u8) -> spec_fn(RequestView) -> bool {
    if which == 0 {
        not_picture_write()
    } else if which == 1 {
        not_snapshot_read()
    } else {
        not_sdr_write()
    }
}

/// Requests waiting for the worker, in arrival order.
#[derive(Debug)]
pub struct PendingWorkerRequests {
    requests: Vec<WorkerRequest>,
}

impl View for PendingWorkerRequests {
    type V = Seq<RequestView>;

    closed spec fn view(&self) -> Seq<RequestView> {
        requests_view(self.requests@)
    }
}

impl PendingWorkerRequests {
    pub fn new() -> (p: Self)
        ensures
            p@ == Seq::<RequestView>::empty(),
    {
        let p = PendingWorkerRequests { requests: Vec::new() };
        assert(p@ =~= Seq::<RequestView>::empty());
        p
    }

    /// A queue that received the given requests in order.
    pub fn from_requests(requests: Vec<WorkerRequest>) -> (p: Self)
        ensures
            p@ == requests_view(requests@).fold_left(
                Seq::<RequestView>::empty(),
                |q: Seq<RequestView>, r: RequestView| push_spec(q, r),
            ),
    {
        let mut p = PendingWorkerRequests::new();
        let mut i: usize = 0;
        let ghost rv = requests_view(requests@);
        while i < requests.len()
            invariant
                i <= requests.len(),
                rv == requests_view(requests@),
                p@ == rv.subrange(0, i as int).fold_left(
                    Seq::<RequestView>::empty(),
                    |q: Seq<RequestView>, r: RequestView| push_spec(q, r),
                ),
            decreases requests.len() - i,
        {
            let r = copy_request(&requests[i]);
            p.push(r);
            proof {
                let f = |q: Seq<RequestView>, r: RequestView| push_spec(q, r);
                assert(rv.subrange(0, i as int + 1).drop_last() =~= rv.subrange(0, i as int));
                rv.subrange(0, i as int + 1).lemma_fold_left_split(Seq::empty(), f, i as int);
                assert(rv.subrange(0, i as int + 1).subrange(0, i as int) =~= rv.subrange(
                    0,
                    i as int,
                ));
                assert(rv.subrange(0, i as int + 1).subrange(i as int, i as int + 1) =~= seq![
                    rv[i as int],
                ]);
                reveal_with_fuel(Seq::fold_left, 2);
            }
            i = i + 1;
        }
        assert(rv.subrange(0, i as int) =~= rv);
        p
    }

    pub fn is_empty(&self) -> (r: bool)
        ensures
            r == (self@.len() == 0),
    {
        self.requests.len() == 0
    }

    /// Keeps the requests that the filter `which` selects, in order.
    fn retain_requests(&mut self, which: u8)
        requires
            which < 3,
        ensures
            final(self)@ == old(self)@.filter(retain_filter(which)),
    {
        let ghost keep = retain_filter(which);
        let ghost q = self@;
        let mut kept: Vec<WorkerRequest> = Vec::new();
        let mut i: usize = 0;
        while i < self.requests.len()
            invariant
                i <= self.requests.len(),
                q == requests_view(self.requests@),
                requests_view(kept@) == q.subrange(0, i as int).filter(keep),
                keep == retain_filter(which),
                which < 3,
            decreases self.requests.len() - i,
        {
            proof {
                lemma_filter_step(q, keep, i as int);
            }
            let r = &self.requests[i];
            let k = if which == 0 {
                !picture_write(r)
            } else if which == 1 {
                !matches!(r, WorkerRequest::ReadSnapshot)
            } else {
                !matches!(r, WorkerRequest::SetSdrContentBrightness { .. })
            };
            if k {
                kept.push(copy_request(r));
                assert(requests_view(kept@) =~= q.subrange(0, i as int).filter(keep).push(q[i as int]));
            }
            i = i + 1;
        }
        assert(q.subrange(0, i as int) =~= q);
        self.requests = kept;
    }

    /// Queues a request; a cancel removes the queued picture writes instead.
    pub fn push(&mut self, request: WorkerRequest)
        ensures
            final(self)@ == push_spec(old(self)@, request@),
    {
        if matches!(request, WorkerRequest::CancelPictureWrites) {
            self.retain_requests(0);
            return;
        }
        self.requests.push(request);
        assert(self@ =~= old(self)@.push(request@));
    }

    fn pop_front(&mut self) -> (r: Option<WorkerRequest>)
        ensures
            old(self)@.len() == 0 ==> r is None && final(self)@ == old(self)@,
            old(self)@.len() > 0 ==> (r matches Some(x) && x@ == old(self)@[0] && final(self)@
                == old(self)@.subrange(1, old(self)@.len() as int)),
    {
        if self.requests.len() == 0 {
            return None;
        }
        let ghost q = self@;
        let x = self.requests.remove(0);
        assert(self@ =~= q.subrange(1, q.len() as int));
        Some(x)
    }

    fn coalesce_write(&mut self, code: u8, value: u32, input_status: bool) -> (t: WorkerTask)
        ensures
            (final(self)@, t@) == coalesce_write_spec(old(self)@, code, value, input_status),
    {
        let ghost q = self@;
        let mut kept: Vec<WorkerRequest> = Vec::new();
        let mut latest_value = value;
        let mut latest_status = input_status;
        let mut i: usize = 0;
        while i < self.requests.len()
            invariant
                i <= self.requests.len(),
                q == requests_view(self.requests@),
                requests_view(kept@) == q.subrange(0, i as int).filter(not_writes_code(code)),
                match last_where(q.subrange(0, i as int), writes_code(code)) {
                    Some(j) => latest_value == write_of(q[j])->Some_0.1 && latest_status == write_of(
                        q[j],
                    )->Some_0.2,
                    None => latest_value == value && latest_status == input_status,
                },
            decreases self.requests.len() - i,
        {
            proof {
                lemma_filter_step(q, not_writes_code(code), i as int);
                lemma_count_prefix_step(q, writes_code(code), i as int);
                lemma_last_where(q.subrange(0, i as int), writes_code(code));
                let lw = last_where(q.subrange(0, i as int), writes_code(code));
                if lw is Some {
                    assert(q.subrange(0, i as int)[lw->Some_0] == q[lw->Some_0]);
                }
            }
            let r = &self.requests[i];
            match write_request(r) {
                Some((c, v, st)) => {
                    if c == code {
                        latest_value = v;
                        latest_status = st;
                    } else {
                        kept.push(copy_request(r));
                        assert(requests_view(kept@) =~= q.subrange(0, i as int).filter(
                            not_writes_code(code),
                        ).push(q[i as int]));
                    }
                },
                None => {
                    kept.push(copy_request(r));
                    assert(requests_view(kept@) =~= q.subrange(0, i as int).filter(
                        not_writes_code(code),
                    ).push(q[i as int]));
                },
            }
            i = i + 1;
        }
        assert(q.subrange(0, i as int) =~= q);
        self.requests = kept;
        WorkerTask::WriteVcp { code, value: latest_value, input_status: latest_status }
    }

    fn coalesce_sdr(&mut self, percent: u32) -> (t: WorkerTask)
        ensures
            (final(self)@, t@) == coalesce_sdr_spec(old(self)@, percent),
    {
        let ghost q = self@;
        let mut latest = percent;
        let mut i: usize = 0;
        while i < self.requests.len()
            invariant
                i <= self.requests.len(),
                q == requests_view(self.requests@),
                match last_where(q.subrange(0, i as int), is_sdr_write()) {
                    Some(j) => latest == q[j]->SetSdrContentBrightness_percent,
                    None => latest == percent,
                },
            decreases self.requests.len() - i,
        {
            proof {
                lemma_count_prefix_step(q, is_sdr_write(), i as int);
                lemma_last_where(q.subrange(0, i as int), is_sdr_write());
                let lw = last_where(q.subrange(0, i as int), is_sdr_write());
                if lw is Some {
                    assert(q.subrange(0, i as int)[lw->Some_0] == q[lw->Some_0]);
                }
            }
            if let WorkerRequest::SetSdrContentBrightness { percent: p } = &self.requests[i] {
                latest = *p;
            }
            i = i + 1;
        }
        assert(q.subrange(0, i as int) =~= q);
        self.retain_requests(2);
        WorkerTask::SetSdrContentBrightness { percent: latest }
    }

    /// The next task: the request at the front, coalesced with the later
    /// queued requests of its kind.
    pub fn pop_next_task(&mut self) -> (t: Option<WorkerTask>)
        ensures
            (final(self)@, match t {
                Some(x) => Some(x@),
                None => None,
            }) == pop_spec(old(self)@),
        decreases old(self)@.len(),
    {
        let request = match self.pop_front() {
            Some(r) => r,
            None => {
                return None;
            },
        };
        match request {
            WorkerRequest::RefreshAll => Some(WorkerTask::RefreshAll),
            WorkerRequest::ReadSnapshot => {
                self.retain_requests(1);
                Some(WorkerTask::ReadSnapshot)
            },
            WorkerRequest::RefreshAutostart => Some(WorkerTask::RefreshAutostart),
            WorkerRequest::SelectMonitor { key } => Some(WorkerTask::SelectMonitor { key }),
            WorkerRequest::SetAutostart { enabled, quiet } => Some(
                WorkerTask::SetAutostart { enabled, quiet },
            ),
            WorkerRequest::SetHdr { enabled, use_cached_ddc_values } => Some(
                WorkerTask::SetHdr { enabled, use_cached_ddc_values },
            ),
            WorkerRequest::SetSdrContentBrightness { percent } => Some(self.coalesce_sdr(percent)),
            WorkerRequest::CancelPictureWrites => self.pop_next_task(),
            WorkerRequest::WriteFeature { code, value } => Some(
                self.coalesce_write(code, value, false),
            ),
            WorkerRequest::SetInput { value } => Some(self.coalesce_write(INPUT_CODE, value, true)),
        }
    }
}


/// After a cancel no picture write is queued, and every other request
/// queued before it is still queued: input writes survive a cancel.
pub proof fn law_cancel_drops_exactly_the_picture_writes(q: Seq<RequestView>)
    ensures
        forall|i: int|
            0 <= i < push_spec(q, RequestView::CancelPictureWrites).len() ==> !is_picture_write(
                #[trigger] push_spec(q, RequestView::CancelPictureWrites)[i],
            ),
        forall|i: int|
            0 <= i < q.len() && !is_picture_write(q[i]) ==> #[trigger] push_spec(
                q,
                RequestView::CancelPictureWrites,
            ).contains(q[i]),
{
    broadcast use vstd::seq_lib::group_filter_ensures;

    assert forall|i: int|
        0 <= i < push_spec(q, RequestView::CancelPictureWrites).len() implies !is_picture_write(
        #[trigger] push_spec(q, RequestView::CancelPictureWrites)[i],
    ) by {
        assert(not_picture_write()(q.filter(not_picture_write())[i]));
    }
    assert forall|i: int| 0 <= i < q.len() && !is_picture_write(q[i]) implies #[trigger] push_spec(
        q,
        RequestView::CancelPictureWrites,
    ).contains(q[i]) by {
        assert(not_picture_write()(q[i]));
    }
}

/// The task taken for a queued write carries the newest value queued for
/// its code: a burst of writes ends at the last value written.
pub proof fn law_taken_write_is_the_newest(q: Seq<RequestView>)
    requires
        q.len() > 0,
        write_of(q[0]) is Some,
    ensures
        ({
            let c = write_of(q[0])->Some_0.0;
            last_where(q, writes_code(c)) matches Some(k) && pop_spec(q).1 == Some(
                TaskView::WriteVcp {
                    code: c,
                    value: write_of(q[k])->Some_0.1,
                    input_status: write_of(q[k])->Some_0.2,
                },
            )
        }),
{
    let c = write_of(q[0])->Some_0.0;
    let p = writes_code(c);
    let rest = q.subrange(1, q.len() as int);
    lemma_last_where(q, p);
    lemma_last_where(rest, p);
    assert(p(q[0]));
    match last_where(rest, p) {
        Some(i) => {
            assert(rest[i] == q[i + 1]);
            let k = last_where(q, p)->Some_0;
            if k > i + 1 {
                assert(q[k] == rest[k - 1]);
            }
            assert(k == i + 1);
        },
        None => {
            let k = last_where(q, p)->Some_0;
            if k > 0 {
                assert(q[k] == rest[k - 1]);
            }
            assert(k == 0);
        },
    }
}

/// Once a write for a code is taken from the queue, no write for that code
/// is left queued: a burst of writes costs the monitor one write.
pub proof fn law_taken_write_leaves_no_write_for_its_code(q: Seq<RequestView>)
    ensures
        pop_spec(q).1 matches Some(TaskView::WriteVcp { code, .. }) ==> forall|i: int|
            0 <= i < pop_spec(q).0.len() ==> !writes_code(code)(#[trigger] pop_spec(q).0[i]),
    decreases q.len(),
{
    broadcast use vstd::seq_lib::group_filter_ensures;

    if q.len() > 0 {
        let rest = q.subrange(1, q.len() as int);
        match q[0] {
            RequestView::CancelPictureWrites => {
                law_taken_write_leaves_no_write_for_its_code(rest);
            },
            RequestView::WriteFeature { code, value } => {
                assert forall|i: int|
                    0 <= i < pop_spec(q).0.len() implies !writes_code(code)(
                    #[trigger] pop_spec(q).0[i],
                ) by {
                    assert(not_writes_code(code)(rest.filter(not_writes_code(code))[i]));
                }
            },
            RequestView::SetInput { value } => {
                assert forall|i: int|
                    0 <= i < pop_spec(q).0.len() implies !writes_code(INPUT_CODE)(
                    #[trigger] pop_spec(q).0[i],
                ) by {
                    assert(not_writes_code(INPUT_CODE)(rest.filter(not_writes_code(INPUT_CODE))[i]));
                }
            },
            _ => {},
        }
    }
}


/// How much of the picture a snapshot reads.
#[derive(Clone, Copy, Debug, Eq, PartialEq, Structural)]
pub enum PictureReadMode {
    Full,
    /// Leaves the DDC picture values unread (they are taken from the cache).
    DeferDdc,
}

/// A picture value that could not be read.
pub open spec fn unavailable_feature_spec() -> FeatureSnapshot {
    FeatureSnapshot { value: 0, maximum: 100, available: false }
}

pub fn unavailable_feature() -> (f: FeatureSnapshot)
    ensures
        f == unavailable_feature_spec(),
{
    FeatureSnapshot { value: 0, maximum: 100, available: false }
}

/// Reads the picture values by the HDR state: with the state unknown,
/// nothing is read; with HDR active, only Windows' SDR brightness is read
/// and contrast is unavailable; a deferred read of an SDR picture reads
/// nothing but stays with DDC; otherwise brightness and contrast are read
/// over DDC.
pub fn read_picture_features<S, D>(
    hdr_state: Option<HdrState>,
    picture_read_mode: PictureReadMode,
    read_sdr: S,
    read_ddc: D,
) -> (r: (FeatureSnapshot, FeatureSnapshot, PictureBackend)) where
    S: FnOnce() -> FeatureSnapshot,
    D: FnMut(u8) -> FeatureSnapshot,

    requires
        call_requires(read_sdr, ()),
        forall|code: u8| call_requires(read_ddc, (code,)),
    ensures
        match hdr_state {
            None => r == (
                unavailable_feature_spec(),
                unavailable_feature_spec(),
                PictureBackend::Unavailable,
            ),
            Some(h) => if h.active {
                &&& call_ensures(read_sdr, (), r.0)
                &&& r.1 == unavailable_feature_spec()
                &&& r.2 == (if r.0.available {
                    PictureBackend::WindowsSdr
                } else {
                    PictureBackend::Unavailable
                })
            } else if picture_read_mode == PictureReadMode::DeferDdc {
                r == (unavailable_feature_spec(), unavailable_feature_spec(), PictureBackend::Ddc)
            } else {
                &&& call_ensures(read_ddc, (BRIGHTNESS_CODE,), r.0)
                &&& call_ensures(read_ddc, (CONTRAST_CODE,), r.1)
                &&& r.2 == PictureBackend::Ddc
            },
        },
{
    let state = match hdr_state {
        Some(h) => h,
        None => {
            return (unavailable_feature(), unavailable_feature(), PictureBackend::Unavailable);
        },
    };
    if state.active {
        let brightness = read_sdr();
        let backend = if brightness.available {
            PictureBackend::WindowsSdr
        } else {
            PictureBackend::Unavailable
        };
        return (brightness, unavailable_feature(), backend);
    }
    if picture_read_mode == PictureReadMode::DeferDdc {
        return (unavailable_feature(), unavailable_feature(), PictureBackend::Ddc);
    }
    let mut read_ddc = read_ddc;
    let ghost d0 = read_ddc;
    let brightness = read_ddc(BRIGHTNESS_CODE);
    let ghost d1 = read_ddc;
    let contrast = read_ddc(CONTRAST_CODE);
    proof {
        assert(call_ensures(d0, (BRIGHTNESS_CODE,), brightness));
        assert(call_ensures(d1, (CONTRAST_CODE,), contrast));
    }
    let r = (brightness, contrast, PictureBackend::Ddc);
    proof {
        assert(call_ensures(d0, (BRIGHTNESS_CODE,), r.0));
        assert(call_ensures(d1, (CONTRAST_CODE,), r.1));
        assert(exists|d: D| call_ensures(d, (BRIGHTNESS_CODE,), r.0));
        assert(exists|d: D| call_ensures(d, (CONTRAST_CODE,), r.1));
    }
    r
}

/// Whether a DDC write may go ahead: brightness and contrast writes need a
/// known HDR state, and HDR must not be active.
pub fn validate_ddc_picture_write(code: u8, hdr_state: Option<HdrState>) -> (r: Result<(), String>)
    ensures
        code != BRIGHTNESS_CODE && code != CONTRAST_CODE ==> r is Ok,
        (code == BRIGHTNESS_CODE || code == CONTRAST_CODE) ==> match hdr_state {
            None => r matches Err(m) && m@
                == "Windows HDR state is unavailable; DDC picture write canceled"@,
            Some(h) => if h.active {
                r matches Err(m) && m@ == "Windows HDR is active; DDC picture write canceled"@
            } else {
                r is Ok
            },
        },
{
    if code != BRIGHTNESS_CODE && code != CONTRAST_CODE {
        return Ok(());
    }
    match hdr_state {
        None => Err(
            String::from_str("Windows HDR state is unavailable; DDC picture write canceled"),
        ),
        Some(h) => if h.active {
            Err(String::from_str("Windows HDR is active; DDC picture write canceled"))
        } else {
            Ok(())
        },
    }
}

/// A monitor choice with the given key.
pub open spec fn choice_key_is(key: Seq<char>) -> spec_fn(MonitorChoice) -> bool {
    |c: MonitorChoice| c.key@ == key
}

/// The monitor a request addresses: the one with the selected key, with no
/// fallback when that key is missing; without a selection, the first.
pub open spec fn selected_index_spec(choices: Seq<MonitorChoice>, selected: Option<Seq<char>>) -> Result<
    int,
    Seq<char>,
> {
    let key = match selected {
        Some(k) => k,
        None => Seq::empty(),
    };
    if key.len() > 0 {
        match first_where(choices, choice_key_is(key)) {
            Some(i) => Ok(i),
            None => Err("Selected monitor is unavailable"@),
        }
    } else if choices.len() == 0 {
        Err("No monitor is selected"@)
    } else {
        Ok(0)
    }
}

pub open spec fn opt_str_view(o: Option<&str>) -> Option<Seq<char>> {
    match o {
        Some(s) => Some(s@),
        None => None,
    }
}

/// The index of the monitor a request addresses.
pub fn strict_selected_monitor_index(choices: &[MonitorChoice], selected_monitor_key: Option<&str>) -> (r:
    Result<usize, String>)
    ensures
        match selected_index_spec(choices@, opt_str_view(selected_monitor_key)) {
            Ok(i) => r == Ok::<usize, String>(i as usize),
            Err(m) => r matches Err(e) && e@ == m,
        },
{
    let key = match selected_monitor_key {
        Some(k) => k,
        None => "",
    };
    proof {
        reveal_strlit("");
    }
    if !key.is_empty() {
        {
            let mut i: usize = 0;
            while i < choices.len()
                invariant
                    i <= choices.len(),
                    first_where(choices@.subrange(0, i as int), choice_key_is(key@)) is None,
                    key@.len() > 0,
                    key@ == match opt_str_view(selected_monitor_key) {
                        Some(k) => k,
                        None => Seq::<char>::empty(),
                    },
                decreases choices.len() - i,
            {
                proof {
                    lemma_count_prefix_step(choices@, choice_key_is(key@), i as int);
                    lemma_first_where(choices@.subrange(0, i as int), choice_key_is(key@));
                }
                if crate::text::str_eq(choices[i].key.as_str(), key) {
                    proof {
                        assert forall|j: int| 0 <= j < i implies !choice_key_is(key@)(
                            #[trigger] choices@[j],
                        ) by {
                            assert(choices@[j] == choices@.subrange(0, i as int)[j]);
                        }
                        lemma_first_where_is(choices@, choice_key_is(key@), i as int);
                        assert(selected_index_spec(choices@, opt_str_view(selected_monitor_key))
                            == Ok::<int, Seq<char>>(i as int));
                    }
                    return Ok(i);
                }
                i = i + 1;
            }
            assert(choices@.subrange(0, i as int) =~= choices@);
            Err(String::from_str("Selected monitor is unavailable"))
        }
    } else if choices.len() == 0 {
        Err(String::from_str("No monitor is selected"))
    } else {
        Ok(0)
    }
}

/// How the HDR state is described to the user.
pub open spec fn hdr_status_of(state: HdrState) -> Seq<char> {
    "Windows HDR: "@ + if state.limited_by_policy {
        "blocked by policy"@
    } else if !state.supported {
        "Not supported"@
    } else if state.user_enabled && state.active {
        "On"@
    } else if state.user_enabled {
        "On (not active)"@
    } else {
        "Off"@
    }
}

pub fn hdr_status_text(state: HdrState) -> (r: String)
    ensures
        r@ == hdr_status_of(state),
{
    let status = if state.limited_by_policy {
        "blocked by policy"
    } else if !state.supported {
        "Not supported"
    } else if state.user_enabled && state.active {
        "On"
    } else if state.user_enabled {
        "On (not active)"
    } else {
        "Off"
    };
    concat2("Windows HDR: ", status)
}

/// The input that a VCP input value selects, by its low byte.
pub open spec fn input_route_of(value: u32) -> InputRoute {
    let low = value & 0xFF;
    if low == INPUT_DP_VALUE {
        InputRoute::DisplayPort
    } else if low == INPUT_USB_C_VALUE {
        InputRoute::UsbC
    } else if low == INPUT_HDMI_VALUE {
        InputRoute::Hdmi
    } else {
        InputRoute::Unknown
    }
}

pub fn input_route_from_value(value: u32) -> (r: InputRoute)
    ensures
        r == input_route_of(value),
{
    let low = value & 0xFF;
    if low == INPUT_DP_VALUE {
        InputRoute::DisplayPort
    } else if low == INPUT_USB_C_VALUE {
        InputRoute::UsbC
    } else if low == INPUT_HDMI_VALUE {
        InputRoute::Hdmi
    } else {
        InputRoute::Unknown
    }
}

/// What std's Unicode tables make of a character in lower case.
pub uninterp spec fn unicode_lowercase(c: char) -> Seq<char>;

/// `char::to_lowercase`, collected: the characters of the lower-case form of
/// `c` by std's Unicode tables, named `unicode_lowercase`; an ASCII
/// character becomes its ASCII lower case.
#[verifier::external_body]
fn char_to_lowercase(c: char) -> (r: Vec<char>)
    ensures
        r@ == unicode_lowercase(c),
        (c as u32) < 128 ==> r@ == seq![ascii_lower(c)],
{
    c.to_lowercase().collect()
}

pub open spec fn is_ascii_alphanumeric(c: char) -> bool {
    ('0' <= c && c <= '9') || ('a' <= c && c <= 'z') || ('A' <= c && c <= 'Z')
}

/// The characters of a text in Unicode lower case.
pub open spec fn lowercased(s: Seq<char>) -> Seq<char>
    decreases s.len(),
{
    if s.len() == 0 {
        Seq::empty()
    } else {
        lowercased(s.drop_last()) + unicode_lowercase(s.last())
    }
}

/// ASCII letters and digits kept, every run of other characters one dash;
/// with whether the text ends in such a dash.
pub open spec fn dashed(s: Seq<char>) -> (Seq<char>, bool)
    decreases s.len(),
{
    if s.len() == 0 {
        (Seq::empty(), false)
    } else {
        let (out, last_dash) = dashed(s.drop_last());
        let c = s.last();
        if is_ascii_alphanumeric(c) {
            (out.push(c), false)
        } else if !last_dash {
            (out.push('-'), true)
        } else {
            (out, true)
        }
    }
}

/// A part of a monitor key: lower case, letters and digits kept, other runs
/// one dash, no dash at either end.
pub open spec fn key_part(s: Seq<char>) -> Seq<char> {
    trim_char_seq(dashed(lowercased(s)).0, '-')
}

pub fn normalize_key_part(value: &str) -> (r: String)
    ensures
        r@ == key_part(value@),
{
    let chars = chars_of(value);
    let mut lowered: Vec<char> = Vec::new();
    let mut i: usize = 0;
    while i < chars.len()
        invariant
            i <= chars.len(),
            lowered@ == lowercased(chars@.subrange(0, i as int)),
        decreases chars.len() - i,
    {
        let mut l = char_to_lowercase(chars[i]);
        lowered.append(&mut l);
        proof {
            assert(chars@.subrange(0, i as int + 1).drop_last() =~= chars@.subrange(0, i as int));
        }
        i = i + 1;
    }
    assert(chars@.subrange(0, i as int) =~= chars@);
    let mut out: Vec<char> = Vec::new();
    let mut last_dash = false;
    let mut j: usize = 0;
    while j < lowered.len()
        invariant
            j <= lowered.len(),
            (out@, last_dash) == dashed(lowered@.subrange(0, j as int)),
        decreases lowered.len() - j,
    {
        let c = lowered[j];
        proof {
            assert(lowered@.subrange(0, j as int + 1).drop_last() =~= lowered@.subrange(0, j as int));
        }
        if ('0' <= c && c <= '9') || ('a' <= c && c <= 'z') || ('A' <= c && c <= 'Z') {
            out.push(c);
            last_dash = false;
        } else if !last_dash {
            out.push('-');
            last_dash = true;
        }
        j = j + 1;
    }
    assert(lowered@.subrange(0, j as int) =~= lowered@);
    let trimmed = trim_char(&out, '-');
    string_from_chars(trimmed.as_slice())
}

/// What is known of one monitor found on the system.
#[derive(Clone, Debug, Default, PartialEq, Eq)]
pub struct MonitorDiagnostics {
    pub capability_error: Option<String>,
    pub parse_error: Option<String>,
    pub display_mapping_error: Option<String>,
}

/// One monitor found on the system, without its DDC channel.
#[derive(Clone, Debug)]
pub struct MonitorRecord {
    pub info: PhysicalMonitor,
    pub capabilities: Option<Capabilities>,
    pub diagnostics: MonitorDiagnostics,
    pub display_target: Option<DisplayTargetId>,
    pub display_monitor: Option<DisplayMonitorHandle>,
}

pub open spec fn model_view(m: PhysicalMonitor) -> Option<Seq<char>> {
    match m.model {
        Some(s) => Some(s@),
        None => None,
    }
}

/// The key of a monitor: description, model and how many earlier monitors
/// share both.
pub open spec fn monitor_key_of(description: Seq<char>, model: Option<Seq<char>>, ordinal: nat) -> Seq<char> {
    key_part(description) + "|"@ + key_part(
        match model {
            Some(m) => m,
            None => Seq::empty(),
        },
    ) + "|"@ + decimal_seq(ordinal)
}

pub fn monitor_key(description: &str, model: Option<&str>, duplicate_ordinal: usize) -> (r: String)
    ensures
        r@ == monitor_key_of(description@, opt_str_view(model), duplicate_ordinal as nat),
{
    let d = normalize_key_part(description);
    let m = match model {
        Some(m) => normalize_key_part(m),
        None => normalize_key_part(""),
    };
    proof {
        reveal_strlit("");
    }
    let mut r = concat3(d.as_str(), "|", m.as_str());
    r.append("|");
    let n = decimal_string(duplicate_ordinal as u64);
    r.append(n.as_str());
    r
}

/// Monitors with the same description and model.
pub open spec fn same_identity(m: MonitorRecord) -> spec_fn(MonitorRecord) -> bool {
    |o: MonitorRecord| o.info.description@ == m.info.description@ && model_view(o.info)
        == model_view(m.info)
}

/// The choice that names a monitor.
pub open spec fn choice_of(monitors: Seq<MonitorRecord>, i: int) -> (Seq<char>, Seq<char>) {
    let m = monitors[i];
    (
        monitor_key_of(
            m.info.description@,
            model_view(m.info),
            count_where(monitors.subrange(0, i), same_identity(m)),
        ),
        heading_of(m.info.description@, model_view(m.info)),
    )
}

fn same_model(a: &Option<String>, b: &Option<String>) -> (r: bool)
    ensures
        r == (match a {
            Some(s) => Some(s@),
            None => None::<Seq<char>>,
        } == match b {
            Some(s) => Some(s@),
            None => None::<Seq<char>>,
        }),
{
    match (a, b) {
        (Some(x), Some(y)) => crate::text::str_eq(x.as_str(), y.as_str()),
        (None, None) => true,
        _ => false,
    }
}

fn opt_as_str(o: &Option<String>) -> (r: Option<&str>)
    ensures
        opt_str_view(r) == match o {
            Some(s) => Some(s@),
            None => None::<Seq<char>>,
        },
{
    match o {
        Some(s) => Some(s.as_str()),
        None => None,
    }
}

/// The choices that name the monitors, in order.
#[verifier::spinoff_prover]
pub fn monitor_choices(monitors: &[MonitorRecord]) -> (r: Vec<MonitorChoice>)
    ensures
        r@.len() == monitors@.len(),
        forall|i: int|
            0 <= i < monitors@.len() ==> (#[trigger] r@[i].key@, r@[i].title@) == choice_of(
                monitors@,
                i,
            ),
{
    let mut choices: Vec<MonitorChoice> = Vec::new();
    let mut index: usize = 0;
    while index < monitors.len()
        invariant
            index <= monitors.len(),
            choices@.len() == index,
            forall|i: int|
                0 <= i < index ==> (#[trigger] choices@[i].key@, choices@[i].title@) == choice_of(
                    monitors@,
                    i,
                ),
        decreases monitors.len() - index,
    {
        let monitor = &monitors[index];
        let mut ordinal: usize = 0;
        let mut k: usize = 0;
        while k < index
            invariant
                k <= index < monitors.len(),
                ordinal <= k,
                ordinal == count_where(
                    monitors@.subrange(0, index as int).subrange(0, k as int),
                    same_identity(monitors@[index as int]),
                ),
                *monitor == monitors@[index as int],
                choices@.len() == index,
                forall|i: int|
                    0 <= i < index ==> (#[trigger] choices@[i].key@, choices@[i].title@)
                        == choice_of(monitors@, i),
            decreases index - k,
        {
            proof {
                lemma_count_prefix_step(
                    monitors@.subrange(0, index as int),
                    same_identity(monitors@[index as int]),
                    k as int,
                );
            }
            let other = &monitors[k];
            if crate::text::str_eq(other.info.description.as_str(), monitor.info.description.as_str())
                && same_model(&other.info.model, &monitor.info.model) {
                ordinal = ordinal + 1;
            }
            k = k + 1;
        }
        proof {
            lemma_full_prefix(monitors@.subrange(0, index as int));
        }
        let model = opt_as_str(&monitor.info.model);
        let key = monitor_key(monitor.info.description.as_str(), model, ordinal);
        let title = monitor_heading(monitor.info.description.as_str(), model);
        choices.push(MonitorChoice { key, title });
        index = index + 1;
    }
    choices
}


/// The problems found with one monitor, each named by the monitor's heading.
pub open spec fn monitor_messages(m: MonitorRecord) -> Seq<Seq<char>> {
    let title = heading_of(m.info.description@, model_view(m.info));
    (match m.diagnostics.capability_error {
        Some(e) => seq![title + ": capabilities unavailable ("@ + e@ + ")"@],
        None => Seq::empty(),
    }) + (match m.diagnostics.parse_error {
        Some(e) => seq![title + ": capabilities parse failed ("@ + e@ + ")"@],
        None => Seq::empty(),
    }) + (match m.diagnostics.display_mapping_error {
        Some(e) => seq![title + ": display mapping unavailable ("@ + e@ + ")"@],
        None => Seq::empty(),
    })
}

pub open spec fn all_messages(ms: Seq<MonitorRecord>) -> Seq<Seq<char>>
    decreases ms.len(),
{
    if ms.len() == 0 {
        Seq::empty()
    } else {
        all_messages(ms.drop_last()) + monitor_messages(ms.last())
    }
}

/// Texts joined with "; ".
pub open spec fn joined_messages(msgs: Seq<Seq<char>>) -> Seq<char>
    decreases msgs.len(),
{
    if msgs.len() == 0 {
        Seq::empty()
    } else if msgs.len() == 1 {
        msgs[0]
    } else {
        joined_messages(msgs.drop_last()) + "; "@ + msgs.last()
    }
}

/// The diagnostics line: every problem of every monitor, or nothing.
pub open spec fn diagnostic_status_of(ms: Seq<MonitorRecord>) -> Seq<char> {
    let msgs = all_messages(ms);
    if msgs.len() == 0 {
        Seq::empty()
    } else {
        "Monitor diagnostics: "@ + joined_messages(msgs)
    }
}

fn problem(title: &str, what: &str, error: &String) -> (r: String)
    ensures
        r@ == title@ + what@ + error@ + ")"@,
{
    let mut r = concat3(title, what, error.as_str());
    r.append(")");
    r
}

pub fn diagnostic_status(monitors: &[MonitorRecord]) -> (r: String)
    ensures
        r@ == diagnostic_status_of(monitors@),
{
    let mut messages: Vec<String> = Vec::new();
    let mut i: usize = 0;
    while i < monitors.len()
        invariant
            i <= monitors.len(),
            messages@.map_values(|m: String| m@) == all_messages(monitors@.subrange(0, i as int)),
        decreases monitors.len() - i,
    {
        let m = &monitors[i];
        let ghost before = messages@.map_values(|m: String| m@);
        let title = monitor_heading(m.info.description.as_str(), opt_as_str(&m.info.model));
        if let Some(e) = &m.diagnostics.capability_error {
            messages.push(problem(title.as_str(), ": capabilities unavailable (", e));
        }
        if let Some(e) = &m.diagnostics.parse_error {
            messages.push(problem(title.as_str(), ": capabilities parse failed (", e));
        }
        if let Some(e) = &m.diagnostics.display_mapping_error {
            messages.push(problem(title.as_str(), ": display mapping unavailable (", e));
        }
        proof {
            assert(monitors@.subrange(0, i as int + 1).drop_last() =~= monitors@.subrange(0, i as int));
            assert(messages@.map_values(|m: String| m@) =~= before + monitor_messages(monitors@[i as int]));
        }
        i = i + 1;
    }
    assert(monitors@.subrange(0, i as int) =~= monitors@);
    let ghost msgs = messages@.map_values(|m: String| m@);
    if messages.len() == 0 {
        return String::new();
    }
    let mut joined = String::new();
    let mut k: usize = 0;
    while k < messages.len()
        invariant
            k <= messages.len(),
            msgs == messages@.map_values(|m: String| m@),
            joined@ == joined_messages(msgs.subrange(0, k as int)),
        decreases messages.len() - k,
    {
        proof {
            assert(msgs.subrange(0, k as int + 1).drop_last() =~= msgs.subrange(0, k as int));
        }
        if k > 0 {
            joined.append("; ");
        }
        joined.append(messages[k].as_str());
        proof {
            if k == 0 {
                assert(joined@ =~= msgs.subrange(0, 1)[0]);
            }
        }
        k = k + 1;
    }
    assert(msgs.subrange(0, k as int) =~= msgs);
    concat2("Monitor diagnostics: ", joined.as_str())
}

/// A DDC reading as a picture value: the current value held to the maximum,
/// the maximum at least one; a failed read is unavailable.
pub open spec fn feature_from_reading_spec(r: Option<VcpFeature>) -> FeatureSnapshot {
    match r {
        Some(f) => FeatureSnapshot {
            value: if f.current < f.maximum {
                f.current
            } else {
                f.maximum
            },
            maximum: if f.maximum < 1 {
                1
            } else {
                f.maximum
            },
            available: true,
        },
        None => unavailable_feature_spec(),
    }
}

pub fn feature_from_reading(r: Option<VcpFeature>) -> (f: FeatureSnapshot)
    ensures
        f == feature_from_reading_spec(r),
{
    match r {
        Some(feature) => FeatureSnapshot {
            value: if feature.current < feature.maximum {
                feature.current
            } else {
                feature.maximum
            },
            maximum: if feature.maximum < 1 {
                1
            } else {
                feature.maximum
            },
            available: true,
        },
        None => unavailable_feature(),
    }
}

/// Windows' SDR content brightness as a picture value out of 100.
pub open spec fn sdr_feature_spec(percent: Option<u32>) -> FeatureSnapshot {
    match percent {
        Some(p) => FeatureSnapshot { value: p, maximum: 100, available: true },
        None => unavailable_feature_spec(),
    }
}

pub fn sdr_feature(percent: Option<u32>) -> (f: FeatureSnapshot)
    ensures
        f == sdr_feature_spec(percent),
{
    match percent {
        Some(p) => FeatureSnapshot { value: p, maximum: 100, available: true },
        None => unavailable_feature(),
    }
}

/// The selected input as read from the monitor.
#[derive(Debug)]
pub struct InputSnapshot {
    pub summary: String,
    pub route: InputRoute,
    pub available: bool,
}

/// The name that a profile gives a value of its input control.
pub open spec fn input_label_spec(profile: Option<MonitorProfile>, value: u32) -> Seq<char> {
    match profile {
        Some(p) => match control_named(p.controls@, "input"@) {
            Some(i) => match label_of(p.controls@[i].values@, value) {
                Some(l) => l,
                None => match label_of(p.controls@[i].values@, value & 0xFF) {
                    Some(l) => l,
                    None => "unknown"@,
                },
            },
            None => "unknown"@,
        },
        None => "unknown"@,
    }
}

/// The input snapshot of a reading: the profile's label in its short form
/// and the input route of the value; a failed read knows no input.
pub fn input_snapshot(profile: Option<&MonitorProfile>, current: Option<u32>) -> (r: InputSnapshot)
    ensures
        match current {
            Some(v) => r.available && r.route == input_route_of(v) && r.summary@
                == compact_label_of(
                input_label_spec(
                    match profile {
                        Some(p) => Some(*p),
                        None => None,
                    },
                    v,
                ),
            ),
            None => !r.available && r.route == InputRoute::Unknown && r.summary@ == "Input"@,
        },
{
    match current {
        Some(v) => {
            let label: &str = match profile {
                Some(p) => match p.control("input") {
                    Some(control) => match control.value_label(v) {
                        Some(l) => l,
                        None => "unknown",
                    },
                    None => "unknown",
                },
                None => "unknown",
            };
            proof {
                reveal_strlit("input");
                reveal_strlit("unknown");
            }
            InputSnapshot {
                summary: String::from_str(compact_input_label(label)),
                route: input_route_from_value(v),
                available: true,
            }
        },
        None => InputSnapshot {
            summary: String::from_str("Input"),
            route: InputRoute::Unknown,
            available: false,
        },
    }
}

/// The HDR state of a monitor, as shown.
#[derive(Debug)]
pub struct HdrInfo {
    pub status: String,
    pub enabled: bool,
    pub available: bool,
    pub state: Option<HdrState>,
}

/// The HDR information of a state that could be read, or of none: HDR is
/// available where it is supported and not limited by policy.
pub fn hdr_info(state: Option<HdrState>) -> (r: HdrInfo)
    ensures
        r.state == state,
        match state {
            Some(h) => r.status@ == hdr_status_of(h) && r.enabled == h.user_enabled && r.available
                == (h.supported && !h.limited_by_policy),
            None => r.status@ == "Windows HDR: unavailable"@ && !r.enabled && !r.available,
        },
{
    match state {
        Some(h) => HdrInfo {
            status: hdr_status_text(h),
            enabled: h.user_enabled,
            available: h.supported && !h.limited_by_policy,
            state: Some(h),
        },
        None => HdrInfo {
            status: String::from_str("Windows HDR: unavailable"),
            enabled: false,
            available: false,
            state: None,
        },
    }
}

/// What the worker learned about the selected monitor.
#[derive(Debug)]
pub struct DeviceSnapshot {
    pub snapshot: MonitorSnapshot,
    pub selected_monitor_missing: bool,
    pub ddc_failure: bool,
    pub picture_values_deferred: bool,
}

/// The snapshot when no monitor can be shown.
pub fn unavailable_device_snapshot(
    choices: Vec<MonitorChoice>,
    selected_monitor_key: String,
    monitor_title: &str,
    diagnostic_status: String,
    selected_monitor_missing: bool,
) -> (d: DeviceSnapshot)
    ensures
        d.snapshot.monitor_title@ == monitor_title@,
        d.snapshot.input_summary@ == "Input"@,
        d.snapshot.hdr_status@ == "Windows HDR: unavailable"@,
        !d.snapshot.hdr_enabled && !d.snapshot.hdr_available && !d.snapshot.hdr_active,
        d.snapshot.picture_backend == PictureBackend::Unavailable,
        d.snapshot.advanced_color_monitor is None,
        d.snapshot.diagnostic_status == diagnostic_status,
        d.snapshot.monitor_choices == choices,
        d.snapshot.selected_monitor_key == selected_monitor_key,
        d.snapshot.brightness == unavailable_feature_spec(),
        d.snapshot.contrast == unavailable_feature_spec(),
        d.snapshot.selected_input == InputRoute::Unknown,
        !d.snapshot.input_enabled && !d.snapshot.has_monitor,
        d.selected_monitor_missing == selected_monitor_missing,
        !d.ddc_failure && !d.picture_values_deferred,
{
    DeviceSnapshot {
        snapshot: MonitorSnapshot {
            monitor_title: String::from_str(monitor_title),
            input_summary: String::from_str("Input"),
            hdr_status: String::from_str("Windows HDR: unavailable"),
            hdr_enabled: false,
            hdr_available: false,
            hdr_active: false,
            picture_backend: PictureBackend::Unavailable,
            advanced_color_monitor: None,
            diagnostic_status,
            monitor_choices: choices,
            selected_monitor_key,
            brightness: unavailable_feature(),
            contrast: unavailable_feature(),
            selected_input: InputRoute::Unknown,
            input_enabled: false,
            has_monitor: false,
        },
        selected_monitor_missing,
        ddc_failure: false,
        picture_values_deferred: false,
    }
}

/// A monitor's DDC channel counts as failing when nothing that should
/// answer did: over DDC, no picture value and no input (or, with the
/// picture deferred, no input where the capabilities promise one); with the
/// picture served by Windows or by nobody, no input where the
/// capabilities promise one.
pub open spec fn ddc_failure_spec(
    backend: PictureBackend,
    deferred: bool,
    brightness_available: bool,
    contrast_available: bool,
    input_available: bool,
    capability_supports_input: bool,
) -> bool {
    match backend {
        PictureBackend::Ddc => if deferred {
            capability_supports_input && !input_available
        } else {
            !brightness_available && !contrast_available && !input_available
        },
        _ => capability_supports_input && !input_available,
    }
}

pub fn ddc_failure(
    backend: PictureBackend,
    deferred: bool,
    brightness_available: bool,
    contrast_available: bool,
    input_available: bool,
    capability_supports_input: bool,
) -> (r: bool)
    ensures
        r == ddc_failure_spec(
            backend,
            deferred,
            brightness_available,
            contrast_available,
            input_available,
            capability_supports_input,
        ),
{
    match backend {
        PictureBackend::Ddc => if deferred {
            capability_supports_input && !input_available
        } else {
            !brightness_available && !contrast_available && !input_available
        },
        _ => capability_supports_input && !input_available,
    }
}


/// The reads that a snapshot makes of the system for one monitor: its HDR
/// state, Windows' SDR content brightness, and DDC values.
pub trait MonitorProbe {
    fn hdr_state(&self, index: usize) -> Option<HdrState>;

    fn sdr_content_brightness(&self, index: usize) -> Option<u32>;

    fn read_vcp(&self, index: usize, code: u8) -> Option<VcpFeature>;
}

/// A reading made through a `MonitorProbe`: what was asked and the answer.
#[allow(inconsistent_fields)]
pub enum ProbeCall {
    HdrState { index: usize, reply: Option<HdrState> },
    SdrBrightness { index: usize, reply: Option<u32> },
    ReadVcp { index: usize, code: u8, reply: Option<VcpFeature> },
}

/// A probe together with the log of the readings made through this wrapper:
/// each reading passes its arguments on unchanged and is recorded with its
/// answer.
pub struct LoggedProbe<'a, P: MonitorProbe> {
    pub probe: &'a P,
    log: Ghost<Seq<ProbeCall>>,
}

impl<'a, P: MonitorProbe> LoggedProbe<'a, P> {
    /// The readings made so far, in order, with their answers.
    pub closed spec fn calls(&self) -> Seq<ProbeCall> {
        self.log@
    }

    /// A probe with no readings logged yet.
    pub fn new(probe: &'a P) -> (r: Self)
        ensures
            r.calls() == Seq::<ProbeCall>::empty(),
    {
        LoggedProbe { probe, log: Ghost(Seq::empty()) }
    }

    pub fn hdr_state(&mut self, index: usize) -> (r: Option<HdrState>)
        ensures
            final(self).calls() == old(self).calls().push(ProbeCall::HdrState { index, reply: r }),
    {
        let r = self.probe.hdr_state(index);
        self.log = Ghost(self.log@.push(ProbeCall::HdrState { index, reply: r }));
        r
    }

    pub fn sdr_content_brightness(&mut self, index: usize) -> (r: Option<u32>)
        ensures
            final(self).calls() == old(self).calls().push(
                ProbeCall::SdrBrightness { index, reply: r },
            ),
    {
        let r = self.probe.sdr_content_brightness(index);
        self.log = Ghost(self.log@.push(ProbeCall::SdrBrightness { index, reply: r }));
        r
    }

    pub fn read_vcp(&mut self, index: usize, code: u8) -> (r: Option<VcpFeature>)
        ensures
            final(self).calls() == old(self).calls().push(
                ProbeCall::ReadVcp { index, code, reply: r },
            ),
    {
        let r = self.probe.read_vcp(index, code);
        self.log = Ghost(self.log@.push(ProbeCall::ReadVcp { index, code, reply: r }));
        r
    }
}

/// Whether a probe call reads the HDR state of monitor `i`.
pub open spec fn is_hdr_read(c: ProbeCall, i: usize) -> bool {
    match c {
        ProbeCall::HdrState { index, .. } => index == i,
        _ => false,
    }
}

/// Whether a probe call reads the SDR brightness of monitor `i`.
pub open spec fn is_sdr_read(c: ProbeCall, i: usize) -> bool {
    match c {
        ProbeCall::SdrBrightness { index, .. } => index == i,
        _ => false,
    }
}

/// Whether a probe call reads VCP `code` of monitor `i`.
pub open spec fn is_vcp_read(c: ProbeCall, i: usize, code: u8) -> bool {
    match c {
        ProbeCall::ReadVcp { index, code: k, .. } => index == i && k == code,
        _ => false,
    }
}

pub open spec fn hdr_reply(c: ProbeCall) -> Option<HdrState> {
    match c {
        ProbeCall::HdrState { reply, .. } => reply,
        _ => None,
    }
}

pub open spec fn sdr_reply(c: ProbeCall) -> Option<u32> {
    match c {
        ProbeCall::SdrBrightness { reply, .. } => reply,
        _ => None,
    }
}

pub open spec fn vcp_reply(c: ProbeCall) -> Option<VcpFeature> {
    match c {
        ProbeCall::ReadVcp { reply, .. } => reply,
        _ => None,
    }
}

/// What a snapshot read of the selected monitor found.
pub struct Readings {
    pub state: Option<HdrState>,
    pub brightness: FeatureSnapshot,
    pub contrast: FeatureSnapshot,
    pub backend: PictureBackend,
    pub input: Option<VcpFeature>,
}

/// The readings of one snapshot of monitor `i`, by the probe calls made:
/// the HDR state when the monitor has a display target; with HDR unknown,
/// no picture reading; with HDR active, Windows' SDR brightness only; a
/// deferred SDR read reads no picture value; otherwise brightness, then
/// contrast over DDC; last, the input. `None` where the calls are not
/// those of a snapshot.
pub open spec fn probe_readings(
    has_target: bool,
    i: usize,
    mode: PictureReadMode,
    calls: Seq<ProbeCall>,
) -> Option<Readings> {
    let p: int = if has_target {
        1
    } else {
        0
    };
    let first_ok = !has_target || (calls.len() >= 1 && is_hdr_read(calls[0], i));
    let state = if has_target && calls.len() >= 1 {
        hdr_reply(calls[0])
    } else {
        None
    };
    let picture: Option<(FeatureSnapshot, FeatureSnapshot, PictureBackend, int)> = match state {
        None => Some(
            (unavailable_feature_spec(), unavailable_feature_spec(), PictureBackend::Unavailable, p),
        ),
        Some(h) => if h.active {
            if calls.len() > p && is_sdr_read(calls[p], i) {
                let b = sdr_feature_spec(sdr_reply(calls[p]));
                Some(
                    (
                        b,
                        unavailable_feature_spec(),
                        if b.available {
                            PictureBackend::WindowsSdr
                        } else {
                            PictureBackend::Unavailable
                        },
                        p + 1,
                    ),
                )
            } else {
                None
            }
        } else if mode == PictureReadMode::DeferDdc {
            Some((unavailable_feature_spec(), unavailable_feature_spec(), PictureBackend::Ddc, p))
        } else if calls.len() > p + 1 && is_vcp_read(calls[p], i, BRIGHTNESS_CODE) && is_vcp_read(
            calls[p + 1],
            i,
            CONTRAST_CODE,
        ) {
            Some(
                (
                    feature_from_reading_spec(vcp_reply(calls[p])),
                    feature_from_reading_spec(vcp_reply(calls[p + 1])),
                    PictureBackend::Ddc,
                    p + 2,
                ),
            )
        } else {
            None
        },
    };
    match picture {
        Some((b, c, backend, next)) => if first_ok && calls.len() == next + 1 && is_vcp_read(
            calls[next],
            i,
            INPUT_CODE,
        ) {
            Some(
                Readings {
                    state,
                    brightness: b,
                    contrast: c,
                    backend,
                    input: vcp_reply(calls[next]),
                },
            )
        } else {
            None
        },
        None => None,
    }
}

pub open spec fn nonempty_key(selected: Option<&str>) -> bool {
    selected matches Some(k) && k@.len() > 0
}

/// Whether an HDR state is known and active.
pub open spec fn state_active(s: Option<HdrState>) -> bool {
    match s {
        Some(h) => h.active,
        None => false,
    }
}

/// Whether the selected monitor reports the input code in its capabilities.
pub open spec fn supports_input_spec(m: MonitorRecord) -> bool {
    match m.capabilities {
        Some(c) => c.vcp_map().contains_key(INPUT_CODE),
        None => false,
    }
}

/// The built-in profile of a model, as `profile_for_model` gives it.
pub open spec fn is_profile_of_model(model: Option<Seq<char>>, p: Option<MonitorProfile>) -> bool {
    match p {
        Some(q) => model == Some("U4025QW"@) && is_u4025qw_profile(q),
        None => model != Some("U4025QW"@),
    }
}

/// The input summary of a snapshot: the short form of the profile's label
/// for the value read, or "Input" when the read failed.
pub open spec fn input_summary_of(profile: Option<MonitorProfile>, input: Option<VcpFeature>) -> Seq<char> {
    match input {
        Some(f) => compact_label_of(input_label_spec(profile, f.current)),
        None => "Input"@,
    }
}

/// The picture, HDR, input and failure fields of a snapshot, as the
/// readings give them.
pub open spec fn snapshot_matches_readings(
    d: DeviceSnapshot,
    m: MonitorRecord,
    mode: PictureReadMode,
    readings: Option<Readings>,
) -> bool {
    match readings {
        Some(rd) => {
            let deferred = mode == PictureReadMode::DeferDdc && match rd.state {
                Some(h) => !h.active,
                None => false,
            };
            &&& d.snapshot.brightness == rd.brightness
            &&& d.snapshot.contrast == rd.contrast
            &&& d.snapshot.picture_backend == rd.backend
            &&& d.snapshot.hdr_active == state_active(rd.state)
            &&& match rd.state {
                Some(h) => d.snapshot.hdr_status@ == hdr_status_of(h) && d.snapshot.hdr_enabled
                    == h.user_enabled && d.snapshot.hdr_available == (h.supported
                    && !h.limited_by_policy),
                None => d.snapshot.hdr_status@ == "Windows HDR: unavailable"@
                    && !d.snapshot.hdr_enabled && !d.snapshot.hdr_available,
            }
            &&& d.snapshot.selected_input == match rd.input {
                Some(f) => input_route_of(f.current),
                None => InputRoute::Unknown,
            }
            &&& d.snapshot.input_enabled == (rd.input is Some || supports_input_spec(m))
            &&& exists|p: Option<MonitorProfile>|
                is_profile_of_model(model_view(m.info), p) && d.snapshot.input_summary@
                    == #[trigger] input_summary_of(p, rd.input)
            &&& d.picture_values_deferred == deferred
            &&& d.ddc_failure == ddc_failure_spec(
                rd.backend,
                deferred,
                rd.brightness.available,
                rd.contrast.available,
                rd.input is Some,
                supports_input_spec(m),
            )
        },
        None => false,
    }
}

/// The snapshot of the selected monitor. Without one, a snapshot that says
/// why; with one, its texts, the HDR state, the picture values as the HDR
/// state allows reading them, and the input.
#[verifier::spinoff_prover]
#[verifier::rlimit(40)]
pub fn build_snapshot<P: MonitorProbe>(
    monitors: &[MonitorRecord],
    selected_monitor_key: Option<&str>,
    picture_read_mode: PictureReadMode,
    probe: &mut LoggedProbe<P>,
) -> (d: DeviceSnapshot)
    ensures
        final(probe).calls().len() >= old(probe).calls().len(),
        final(probe).calls().subrange(0, old(probe).calls().len() as int) == old(probe).calls(),
        d.snapshot.monitor_choices@.len() == monitors@.len(),
        forall|i: int|
            0 <= i < monitors@.len() ==> (#[trigger] d.snapshot.monitor_choices@[i].key@,
            d.snapshot.monitor_choices@[i].title@) == choice_of(monitors@, i),
        match selected_index_spec(d.snapshot.monitor_choices@, opt_str_view(selected_monitor_key)) {
            Err(_) => {
                &&& !d.snapshot.has_monitor
                &&& d.selected_monitor_missing == nonempty_key(selected_monitor_key)
                &&& d.snapshot.monitor_title@ == (if nonempty_key(selected_monitor_key) {
                    "Selected monitor is unavailable"@
                } else {
                    "No DDC/CI monitor detected"@
                })
                &&& d.snapshot.diagnostic_status@ == (if nonempty_key(selected_monitor_key) {
                    diagnostic_status_of(monitors@)
                } else {
                    Seq::empty()
                })
                &&& d.snapshot.picture_backend == PictureBackend::Unavailable
                &&& !d.ddc_failure && !d.picture_values_deferred
                &&& final(probe).calls() == old(probe).calls()
            },
            Ok(i) => {
                let m = monitors@[i];
                &&& d.snapshot.has_monitor && !d.selected_monitor_missing
                &&& d.snapshot.monitor_title@ == heading_of(m.info.description@, model_view(m.info))
                &&& d.snapshot.selected_monitor_key@ == d.snapshot.monitor_choices@[i].key@
                &&& d.snapshot.advanced_color_monitor == m.display_monitor
                &&& d.snapshot.diagnostic_status@ == diagnostic_status_of(monitors@)
                &&& (m.capabilities matches Some(c) && c.vcp_map().contains_key(INPUT_CODE)
                    ==> d.snapshot.input_enabled)
                &&& (m.display_target is None ==> !d.snapshot.hdr_available
                    && d.snapshot.picture_backend == PictureBackend::Unavailable)
                &&& (d.picture_values_deferred ==> picture_read_mode == PictureReadMode::DeferDdc
                    && d.snapshot.picture_backend == PictureBackend::Ddc)
                &&& snapshot_matches_readings(
                    d,
                    m,
                    picture_read_mode,
                    probe_readings(
                        m.display_target is Some,
                        i as usize,
                        picture_read_mode,
                        final(probe).calls().subrange(
                            old(probe).calls().len() as int,
                            final(probe).calls().len() as int,
                        ),
                    ),
                )
            },
        },
{
    let choices = monitor_choices(monitors);
    let requested = match selected_monitor_key {
        Some(k) => !k.is_empty(),
        None => false,
    };
    let index = match strict_selected_monitor_index(choices.as_slice(), selected_monitor_key) {
        Ok(index) => index,
        Err(_) => {
            if requested {
                let key = match selected_monitor_key {
                    Some(k) => String::from_str(k),
                    None => String::new(),
                };
                return unavailable_device_snapshot(
                    choices,
                    key,
                    "Selected monitor is unavailable",
                    diagnostic_status(monitors),
                    true,
                );
            } else {
                return unavailable_device_snapshot(
                    choices,
                    String::new(),
                    "No DDC/CI monitor detected",
                    String::new(),
                    false,
                );
            }
        },
    };
    proof {
        lemma_first_where(
            choices@,
            choice_key_is(
                match opt_str_view(selected_monitor_key) {
                    Some(k) => k,
                    None => Seq::empty(),
                },
            ),
        );
    }
    let monitor = &monitors[index];
    let ghost c0 = probe.calls();
    let ghost m0 = c0.len() as int;
    let has_target = monitor.display_target.is_some();
    let state = if has_target {
        probe.hdr_state(index)
    } else {
        None
    };
    let hdr = hdr_info(state);
    let (brightness, contrast, picture_backend) = match state {
        None => (unavailable_feature(), unavailable_feature(), PictureBackend::Unavailable),
        Some(h) => {
            if h.active {
                let b = sdr_feature(probe.sdr_content_brightness(index));
                let backend = if b.available {
                    PictureBackend::WindowsSdr
                } else {
                    PictureBackend::Unavailable
                };
                (b, unavailable_feature(), backend)
            } else if picture_read_mode == PictureReadMode::DeferDdc {
                (unavailable_feature(), unavailable_feature(), PictureBackend::Ddc)
            } else {
                let b = feature_from_reading(probe.read_vcp(index, BRIGHTNESS_CODE));
                let c = feature_from_reading(probe.read_vcp(index, CONTRAST_CODE));
                (b, c, PictureBackend::Ddc)
            }
        },
    };
    let deferred = picture_read_mode == PictureReadMode::DeferDdc && match state {
        Some(h) => !h.active,
        None => false,
    };
    let profile = profile_for_model(opt_as_str(&monitor.info.model));
    let input_reading = probe.read_vcp(index, INPUT_CODE);
    proof {
        let added = probe.calls().subrange(m0, probe.calls().len() as int);
        assert(probe.calls().subrange(0, m0) =~= c0);
        assert forall|k: int| 0 <= k < added.len() implies #[trigger] added[k] == probe.calls()[m0
            + k] by {}
    }
    let current = match input_reading {
        Some(f) => Some(f.current),
        None => None,
    };
    let input = input_snapshot(
        match &profile {
            Some(p) => Some(p),
            None => None,
        },
        current,
    );
    proof {
        assert(input.summary@ == input_summary_of(profile, input_reading));
        assert(is_profile_of_model(model_view(monitor.info), profile));
    }
    let supports_input = match &monitor.capabilities {
        Some(c) => c.supports_vcp(INPUT_CODE),
        None => false,
    };
    let input_enabled = input.available || supports_input;
    let failure = ddc_failure(
        picture_backend,
        deferred,
        brightness.available,
        contrast.available,
        input.available,
        supports_input,
    );
    let key = choices[index].key.clone();
    let title = monitor_heading(monitor.info.description.as_str(), opt_as_str(&monitor.info.model));
    let diagnostics = diagnostic_status(monitors);
    let hdr_active = match state {
        Some(h) => h.active,
        None => false,
    };
    DeviceSnapshot {
        snapshot: MonitorSnapshot {
            monitor_title: title,
            input_summary: input.summary,
            hdr_status: hdr.status,
            hdr_enabled: hdr.enabled,
            hdr_available: hdr.available,
            hdr_active,
            picture_backend,
            advanced_color_monitor: monitor.display_monitor,
            diagnostic_status: diagnostics,
            monitor_choices: choices,
            selected_monitor_key: key,
            brightness,
            contrast,
            selected_input: input.route,
            input_enabled,
            has_monitor: true,
        },
        selected_monitor_missing: false,
        ddc_failure: failure,
        picture_values_deferred: deferred,
    }
}


/// The worker's own state between tasks.
#[derive(Debug)]
pub struct WorkerRuntimeState {
    pub selected_monitor_key: Option<String>,
    pub consecutive_ddc_failures: u8,
}

impl Default for WorkerRuntimeState {
    fn default() -> (r: Self)
        ensures
            r.selected_monitor_key is None,
            r.consecutive_ddc_failures == 0,
    {
        WorkerRuntimeState { selected_monitor_key: None, consecutive_ddc_failures: 0 }
    }
}

/// An answer that is empty or an error text.
pub open spec fn reply_view(r: Result<(), String>) -> Result<(), Seq<char>> {
    match r {
        Ok(()) => Ok(()),
        Err(e) => Err(e@),
    }
}

/// A call made on a `WorkerDevice`: its arguments and what it answered.
#[allow(inconsistent_fields)]
pub enum DeviceCall {
    RefreshMonitors { reply: Result<(), Seq<char>> },
    Snapshot { key: Option<Seq<char>>, mode: PictureReadMode, reply: DeviceSnapshot },
    WriteVcp { key: Option<Seq<char>>, code: u8, value: u32, reply: Result<(), Seq<char>> },
    SetHdr { key: Option<Seq<char>>, enabled: bool, reply: Result<(), Seq<char>> },
    SetSdr { key: Option<Seq<char>>, percent: u32, reply: Result<(), Seq<char>> },
    ReadAutostart { reply: bool },
    SetAutostart { enabled: bool, reply: Result<(), Seq<char>> },
}

/// The system as the worker sees it: monitors, their DDC channels, Windows'
/// HDR and SDR brightness, and the autostart entry.
pub trait WorkerDevice {
    fn refresh_monitors(&mut self) -> Result<(), String>;

    fn snapshot(
        &mut self,
        selected_monitor_key: Option<&str>,
        picture_read_mode: PictureReadMode,
    ) -> DeviceSnapshot;

    fn write_vcp(&mut self, selected_monitor_key: Option<&str>, code: u8, value: u32) -> Result<
        (),
        String,
    >;

    fn set_hdr_enabled(&mut self, selected_monitor_key: Option<&str>, enabled: bool) -> Result<
        (),
        String,
    >;

    fn set_sdr_content_brightness(
        &mut self,
        selected_monitor_key: Option<&str>,
        percent: u32,
    ) -> Result<(), String>;

    fn autostart_enabled(&self) -> bool;

    fn set_autostart_enabled(&mut self, enabled: bool) -> Result<(), String>;
}

/// A device together with the log of the calls made on it through this
/// wrapper: each call passes its arguments on unchanged and is recorded
/// with the answer it got.
pub struct LoggedDevice<D: WorkerDevice> {
    pub device: D,
    log: Ghost<Seq<DeviceCall>>,
}

impl<D: WorkerDevice> LoggedDevice<D> {
    /// The calls made so far, in order, with their answers.
    pub closed spec fn calls(&self) -> Seq<DeviceCall> {
        self.log@
    }

    /// The device the calls go to.
    pub closed spec fn inner(&self) -> D {
        self.device
    }

    /// A device with no calls logged yet.
    pub fn new(device: D) -> (r: Self)
        ensures
            r.inner() == device,
            r.calls() == Seq::<DeviceCall>::empty(),
    {
        LoggedDevice { device, log: Ghost(Seq::empty()) }
    }

    pub fn refresh_monitors(&mut self) -> (r: Result<(), String>)
        ensures
            final(self).calls() == old(self).calls().push(
                DeviceCall::RefreshMonitors { reply: reply_view(r) },
            ),
    {
        let r = self.device.refresh_monitors();
        self.log = Ghost(self.log@.push(DeviceCall::RefreshMonitors { reply: reply_view(r) }));
        r
    }

    pub fn snapshot(&mut self, selected_monitor_key: Option<&str>, picture_read_mode: PictureReadMode) -> (d:
        DeviceSnapshot)
        ensures
            final(self).calls() == old(self).calls().push(
                DeviceCall::Snapshot {
                    key: opt_str_view(selected_monitor_key),
                    mode: picture_read_mode,
                    reply: d,
                },
            ),
    {
        let d = self.device.snapshot(selected_monitor_key, picture_read_mode);
        self.log = Ghost(
            self.log@.push(
                DeviceCall::Snapshot {
                    key: opt_str_view(selected_monitor_key),
                    mode: picture_read_mode,
                    reply: d,
                },
            ),
        );
        d
    }

    pub fn write_vcp(&mut self, selected_monitor_key: Option<&str>, code: u8, value: u32) -> (r:
        Result<(), String>)
        ensures
            final(self).calls() == old(self).calls().push(
                DeviceCall::WriteVcp {
                    key: opt_str_view(selected_monitor_key),
                    code,
                    value,
                    reply: reply_view(r),
                },
            ),
    {
        let r = self.device.write_vcp(selected_monitor_key, code, value);
        self.log = Ghost(
            self.log@.push(
                DeviceCall::WriteVcp {
                    key: opt_str_view(selected_monitor_key),
                    code,
                    value,
                    reply: reply_view(r),
                },
            ),
        );
        r
    }

    pub fn set_hdr_enabled(&mut self, selected_monitor_key: Option<&str>, enabled: bool) -> (r:
        Result<(), String>)
        ensures
            final(self).calls() == old(self).calls().push(
                DeviceCall::SetHdr {
                    key: opt_str_view(selected_monitor_key),
                    enabled,
                    reply: reply_view(r),
                },
            ),
    {
        let r = self.device.set_hdr_enabled(selected_monitor_key, enabled);
        self.log = Ghost(
            self.log@.push(
                DeviceCall::SetHdr {
                    key: opt_str_view(selected_monitor_key),
                    enabled,
                    reply: reply_view(r),
                },
            ),
        );
        r
    }

    pub fn set_sdr_content_brightness(&mut self, selected_monitor_key: Option<&str>, percent: u32) -> (r:
        Result<(), String>)
        ensures
            final(self).calls() == old(self).calls().push(
                DeviceCall::SetSdr {
                    key: opt_str_view(selected_monitor_key),
                    percent,
                    reply: reply_view(r),
                },
            ),
    {
        let r = self.device.set_sdr_content_brightness(selected_monitor_key, percent);
        self.log = Ghost(
            self.log@.push(
                DeviceCall::SetSdr {
                    key: opt_str_view(selected_monitor_key),
                    percent,
                    reply: reply_view(r),
                },
            ),
        );
        r
    }

    pub fn autostart_enabled(&mut self) -> (r: bool)
        ensures
            final(self).calls() == old(self).calls().push(DeviceCall::ReadAutostart { reply: r }),
    {
        let r = self.device.autostart_enabled();
        self.log = Ghost(self.log@.push(DeviceCall::ReadAutostart { reply: r }));
        r
    }

    pub fn set_autostart_enabled(&mut self, enabled: bool) -> (r: Result<(), String>)
        ensures
            final(self).calls() == old(self).calls().push(
                DeviceCall::SetAutostart { enabled, reply: reply_view(r) },
            ),
    {
        let r = self.device.set_autostart_enabled(enabled);
        self.log = Ghost(self.log@.push(DeviceCall::SetAutostart { enabled, reply: reply_view(r) }));
        r
    }
}

/// How many snapshots in a row may show a failing DDC channel before the
/// monitors are enumerated again.
pub const DDC_FAILURE_REFRESH_THRESHOLD: u8 = 2;

/// The failure count after a snapshot, and whether to enumerate the
/// monitors again: a failure counts up, and reaching the threshold resets
/// the count and asks for the refresh; a success resets the count.
pub open spec fn ddc_failure_step_spec(count: u8, failure: bool) -> (u8, bool) {
    if failure {
        let c: int = if count == 255 {
            255
        } else {
            count + 1
        };
        if c >= DDC_FAILURE_REFRESH_THRESHOLD {
            (0, true)
        } else {
            (c as u8, false)
        }
    } else {
        (0, false)
    }
}

pub fn ddc_failure_step(count: u8, failure: bool) -> (r: (u8, bool))
    ensures
        r == ddc_failure_step_spec(count, failure),
{
    if failure {
        let c = count.saturating_add(1);
        if c >= DDC_FAILURE_REFRESH_THRESHOLD {
            (0, true)
        } else {
            (c, false)
        }
    } else {
        (0, false)
    }
}

/// Two failing snapshots in a row ask for a refresh of the monitors, and
/// the count never rests at the threshold.
pub proof fn law_second_consecutive_failure_refreshes(count: u8)
    requires
        count < DDC_FAILURE_REFRESH_THRESHOLD,
    ensures
        ddc_failure_step_spec(ddc_failure_step_spec(count, true).0, true).1
            || ddc_failure_step_spec(count, true).1,
        ddc_failure_step_spec(count, true).0 < DDC_FAILURE_REFRESH_THRESHOLD,
        ddc_failure_step_spec(count, false) == (0u8, false),
{
}

fn key_of(runtime: &WorkerRuntimeState) -> (r: Option<&str>)
    ensures
        opt_str_view(r) == match runtime.selected_monitor_key {
            Some(s) => Some(s@),
            None => None::<Seq<char>>,
        },
{
    opt_as_str(&runtime.selected_monitor_key)
}

/// A worker event with its texts as character sequences.
pub enum EventView {
    Snapshot(MonitorSnapshot),
    AutostartState { enabled: bool, status: Seq<char> },
    HdrUpdateFinished { enabled: bool, error: Option<Seq<char>>, used_cached_ddc_values: bool },
    SdrContentBrightnessFinished { requested_percent: u32, error: Option<Seq<char>> },
    Status(Seq<char>),
    Error(Seq<char>),
}

pub open spec fn opt_text(o: Option<String>) -> Option<Seq<char>> {
    match o {
        Some(s) => Some(s@),
        None => None,
    }
}

pub open spec fn event_view(e: WorkerEvent) -> EventView {
    match e {
        WorkerEvent::Snapshot(s) => EventView::Snapshot(s),
        WorkerEvent::AutostartState { enabled, status } => EventView::AutostartState {
            enabled,
            status: status@,
        },
        WorkerEvent::HdrUpdateFinished { enabled, error, used_cached_ddc_values } =>
            EventView::HdrUpdateFinished { enabled, error: opt_text(error), used_cached_ddc_values },
        WorkerEvent::SdrContentBrightnessFinished { requested_percent, error } =>
            EventView::SdrContentBrightnessFinished { requested_percent, error: opt_text(error) },
        WorkerEvent::Status(m) => EventView::Status(m@),
        WorkerEvent::Error(m) => EventView::Error(m@),
    }
}

/// The events added after the first `n`, as views.
pub open spec fn added_events(events: Seq<WorkerEvent>, n: int) -> Seq<EventView> {
    Seq::new((events.len() - n) as nat, |i: int| event_view(events[n + i]))
}

/// The calls made after the first `n`.
pub open spec fn added_calls(calls: Seq<DeviceCall>, n: int) -> Seq<DeviceCall> {
    calls.subrange(n, calls.len() as int)
}

pub open spec fn runtime_key(r: WorkerRuntimeState) -> Option<Seq<char>> {
    match r.selected_monitor_key {
        Some(s) => Some(s@),
        None => None,
    }
}

/// The notice that the selected monitor is missing, when it is.
pub open spec fn missing_events(missing: bool) -> Seq<EventView> {
    if missing {
        seq![EventView::Status("Selected monitor is unavailable"@)]
    } else {
        Seq::empty()
    }
}

/// One snapshot as the worker takes it, from the calls it made and the
/// events it sent: a snapshot of the selected monitor in the given mode is
/// sent, with a notice when the monitor is missing; the failure count moves
/// by `ddc_failure_step`; when that asks for it, the monitors are enumerated
/// again and, if that works, a full snapshot follows, else the error is sent.
pub open spec fn snapshot_run(
    key: Option<Seq<char>>,
    count0: u8,
    mode: PictureReadMode,
    calls: Seq<DeviceCall>,
    evs: Seq<EventView>,
    count1: u8,
) -> bool {
    calls.len() >= 1 && match calls[0] {
        DeviceCall::Snapshot { key: k, mode: m, reply: d } => {
            let head = seq![EventView::Snapshot(d.snapshot)] + missing_events(
                d.selected_monitor_missing,
            );
            let step = ddc_failure_step_spec(count0, d.ddc_failure);
            &&& k == key
            &&& m == mode
            &&& count1 == step.0
            &&& if !step.1 {
                calls.len() == 1 && evs == head
            } else {
                calls.len() >= 2 && match calls[1] {
                    DeviceCall::RefreshMonitors { reply: Ok(()) } => calls.len() == 3 && match calls[2] {
                        DeviceCall::Snapshot { key: k2, mode: m2, reply: d2 } => k2 == key && m2
                            == PictureReadMode::Full && evs == head + seq![
                            EventView::Status(
                                "Monitor topology refreshed after repeated DDC failures"@,
                            ),
                            EventView::Snapshot(d2.snapshot),
                        ],
                        _ => false,
                    },
                    DeviceCall::RefreshMonitors { reply: Err(e) } => calls.len() == 2 && evs == head
                        + seq![EventView::Error("Monitor refresh after DDC failures failed: "@ + e)],
                    _ => false,
                }
            }
        },
        _ => false,
    }
}

/// Whether the first snapshot of a run left the DDC picture values unread.
pub open spec fn snapshot_deferred(calls: Seq<DeviceCall>) -> bool {
    match calls[0] {
        DeviceCall::Snapshot { reply, .. } => reply.picture_values_deferred,
        _ => false,
    }
}

/// An error answer as the text of an event, with a prefix.
pub open spec fn failure_text(prefix: Seq<char>, reply: Result<(), Seq<char>>) -> Option<Seq<char>> {
    match reply {
        Ok(()) => None,
        Err(e) => Some(prefix + e),
    }
}

/// The run of a cached change to SDR: a deferred snapshot, the completion,
/// and a full snapshot when the deferred one did leave the values unread.
pub open spec fn cached_hdr_split(
    key: Option<Seq<char>>,
    count0: u8,
    enabled: bool,
    calls: Seq<DeviceCall>,
    evs: Seq<EventView>,
    count1: u8,
    i: int,
    j: int,
    mid: u8,
) -> bool {
    let used = snapshot_deferred(calls.subrange(1, i));
    &&& 1 <= i <= calls.len()
    &&& 0 <= j < evs.len()
    &&& snapshot_run(key, count0, PictureReadMode::DeferDdc, calls.subrange(1, i), evs.subrange(0, j), mid)
    &&& evs[j] == EventView::HdrUpdateFinished { enabled, error: None, used_cached_ddc_values: used }
    &&& if used {
        snapshot_run(
            key,
            mid,
            PictureReadMode::Full,
            calls.subrange(i, calls.len() as int),
            evs.subrange(j + 1, evs.len() as int),
            count1,
        )
    } else {
        i == calls.len() && j + 1 == evs.len() && count1 == mid
    }
}

/// What one task does on the device, by the calls it makes (`calls`, with
/// their answers) and the events it sends (`evs`), from the selected key and
/// failure count before (`key0`, `count0`) to those after (`key1`, `count1`).
pub open spec fn task_run(
    task: WorkerTask,
    key0: Option<Seq<char>>,
    count0: u8,
    calls: Seq<DeviceCall>,
    evs: Seq<EventView>,
    key1: Option<Seq<char>>,
    count1: u8,
) -> bool {
    match task {
        WorkerTask::RefreshAll => {
            &&& key1 == key0
            &&& calls.len() >= 1 && evs.len() >= 1
            &&& calls[0] matches DeviceCall::RefreshMonitors { reply }
            &&& snapshot_run(
                key0,
                count0,
                PictureReadMode::Full,
                calls.subrange(1, calls.len() as int),
                evs.drop_last(),
                count1,
            )
            &&& evs.last() == match calls[0] {
                DeviceCall::RefreshMonitors { reply: Err(e) } => EventView::Error(
                    "Monitor refresh failed: "@ + e,
                ),
                _ => EventView::Status("Monitors refreshed"@),
            }
        },
        WorkerTask::ReadSnapshot => key1 == key0 && snapshot_run(
            key0,
            count0,
            PictureReadMode::Full,
            calls,
            evs,
            count1,
        ),
        WorkerTask::RefreshAutostart => {
            &&& key1 == key0 && count1 == count0
            &&& calls.len() == 1 && evs.len() == 1
            &&& calls[0] matches DeviceCall::ReadAutostart { reply }
            &&& evs[0] == EventView::AutostartState { enabled: reply, status: Seq::empty() }
        },
        WorkerTask::SelectMonitor { key } => key1 == Some(key@) && snapshot_run(
            key1,
            0,
            PictureReadMode::Full,
            calls,
            evs,
            count1,
        ),
        WorkerTask::SetAutostart { enabled, quiet } => {
            &&& key1 == key0 && count1 == count0
            &&& calls.len() >= 1
            &&& calls[0] matches DeviceCall::SetAutostart { enabled: e, reply }
            &&& e == enabled
            &&& match reply {
                Ok(()) => calls.len() == 1 && evs == seq![
                    EventView::AutostartState { enabled, status: autostart_status_of(enabled, quiet) },
                ],
                Err(m) => calls.len() == 2 && (calls[1] matches DeviceCall::ReadAutostart {
                    reply: actual,
                } && evs == seq![
                    EventView::Error("Autostart update failed: "@ + m),
                    EventView::AutostartState { enabled: actual, status: Seq::empty() },
                ]),
            }
        },
        WorkerTask::SetHdr { enabled, use_cached_ddc_values } => {
            &&& key1 == key0
            &&& calls.len() >= 1
            &&& calls[0] matches DeviceCall::SetHdr { key: k, enabled: e, reply }
            &&& k == key0 && e == enabled
            &&& if reply is Ok && !enabled && use_cached_ddc_values {
                exists|i: int, j: int, mid: u8|
                    #[trigger] cached_hdr_split(key0, count0, enabled, calls, evs, count1, i, j, mid)
            } else {
                &&& evs.len() >= 1
                &&& snapshot_run(
                    key0,
                    count0,
                    PictureReadMode::Full,
                    calls.subrange(1, calls.len() as int),
                    evs.drop_last(),
                    count1,
                )
                &&& evs.last() == EventView::HdrUpdateFinished {
                    enabled,
                    error: failure_text("HDR update failed: "@, reply),
                    used_cached_ddc_values: false,
                }
            }
        },
        WorkerTask::SetSdrContentBrightness { percent } => {
            &&& key1 == key0
            &&& calls.len() >= 1 && evs.len() >= 1
            &&& calls[0] matches DeviceCall::SetSdr { key: k, percent: p, reply }
            &&& k == key0 && p == percent
            &&& snapshot_run(
                key0,
                count0,
                PictureReadMode::Full,
                calls.subrange(1, calls.len() as int),
                evs.drop_last(),
                count1,
            )
            &&& evs.last() == EventView::SdrContentBrightnessFinished {
                requested_percent: percent,
                error: failure_text("SDR content brightness update failed: "@, reply),
            }
        },
        WorkerTask::WriteVcp { code, value, input_status } => {
            &&& key1 == key0 && count1 == count0
            &&& calls.len() == 1
            &&& calls[0] matches DeviceCall::WriteVcp { key: k, code: c, value: v, reply }
            &&& k == key0 && c == code && v == value
            &&& evs == match reply {
                Ok(()) => if input_status {
                    seq![EventView::Status("Input set to 0x"@ + hex_seq(value as nat))]
                } else {
                    Seq::empty()
                },
                Err(m) => seq![EventView::Error(m)],
            }
        },
    }
}

/// Takes a snapshot and reports it; a missing selected monitor is reported
/// too; repeated DDC failures lead to a new enumeration of the monitors and
/// a fresh snapshot. Returns whether the DDC picture values were deferred.
pub fn emit_device_snapshot_with_mode<D: WorkerDevice>(
    device: &mut LoggedDevice<D>,
    events: &mut Vec<WorkerEvent>,
    runtime: &mut WorkerRuntimeState,
    picture_read_mode: PictureReadMode,
) -> (deferred: bool)
    ensures
        final(device).calls().len() > old(device).calls().len(),
        final(device).calls().subrange(0, old(device).calls().len() as int) == old(device).calls(),
        final(events)@.len() > old(events)@.len(),
        final(events)@.subrange(0, old(events)@.len() as int) == old(events)@,
        final(runtime).selected_monitor_key == old(runtime).selected_monitor_key,
        final(runtime).consecutive_ddc_failures < DDC_FAILURE_REFRESH_THRESHOLD,
        snapshot_run(
            runtime_key(*old(runtime)),
            old(runtime).consecutive_ddc_failures,
            picture_read_mode,
            added_calls(final(device).calls(), old(device).calls().len() as int),
            added_events(final(events)@, old(events)@.len() as int),
            final(runtime).consecutive_ddc_failures,
        ),
        deferred == snapshot_deferred(
            added_calls(final(device).calls(), old(device).calls().len() as int),
        ),
{
    let ghost c0 = device.calls();
    let ghost e0 = events@;
    let ghost n = e0.len() as int;
    let result = device.snapshot(key_of(runtime), picture_read_mode);
    let missing = result.selected_monitor_missing;
    let failure = result.ddc_failure;
    let deferred = result.picture_values_deferred;
    let ghost d = result;
    events.push(WorkerEvent::Snapshot(result.snapshot));
    if missing {
        events.push(WorkerEvent::Status(String::from_str("Selected monitor is unavailable")));
    }
    let ghost e1 = events@;
    let ghost head = seq![EventView::Snapshot(d.snapshot)] + missing_events(d.selected_monitor_missing);
    assert(added_events(e1, n) =~= head);
    let (count, refresh) = ddc_failure_step(runtime.consecutive_ddc_failures, failure);
    runtime.consecutive_ddc_failures = count;
    if refresh {
        match device.refresh_monitors() {
            Ok(()) => {
                events.push(
                    WorkerEvent::Status(
                        String::from_str("Monitor topology refreshed after repeated DDC failures"),
                    ),
                );
                let refreshed = device.snapshot(key_of(runtime), PictureReadMode::Full);
                let ghost d2 = refreshed;
                events.push(WorkerEvent::Snapshot(refreshed.snapshot));
                assert(added_events(events@, n) =~= head + seq![
                    EventView::Status("Monitor topology refreshed after repeated DDC failures"@),
                    EventView::Snapshot(d2.snapshot),
                ]);
            },
            Err(error) => {
                let ghost ev = error@;
                events.push(
                    WorkerEvent::Error(
                        concat2("Monitor refresh after DDC failures failed: ", error.as_str()),
                    ),
                );
                assert(added_events(events@, n) =~= head + seq![
                    EventView::Error("Monitor refresh after DDC failures failed: "@ + ev),
                ]);
            },
        }
    }
    proof {
        assert(events@.subrange(0, n) =~= e0);
        assert(device.calls().subrange(0, c0.len() as int) =~= c0);
        let ac = added_calls(device.calls(), c0.len() as int);
        assert(ac[0] == device.calls()[c0.len() as int]);
        if refresh {
            assert(ac[1] == device.calls()[c0.len() as int + 1]);
        }
    }
    deferred
}

/// A snapshot in full.
pub fn emit_device_snapshot<D: WorkerDevice>(
    device: &mut LoggedDevice<D>,
    events: &mut Vec<WorkerEvent>,
    runtime: &mut WorkerRuntimeState,
)
    ensures
        final(device).calls().len() > old(device).calls().len(),
        final(device).calls().subrange(0, old(device).calls().len() as int) == old(device).calls(),
        final(events)@.len() > old(events)@.len(),
        final(events)@.subrange(0, old(events)@.len() as int) == old(events)@,
        final(runtime).selected_monitor_key == old(runtime).selected_monitor_key,
        final(runtime).consecutive_ddc_failures < DDC_FAILURE_REFRESH_THRESHOLD,
        snapshot_run(
            runtime_key(*old(runtime)),
            old(runtime).consecutive_ddc_failures,
            PictureReadMode::Full,
            added_calls(final(device).calls(), old(device).calls().len() as int),
            added_events(final(events)@, old(events)@.len() as int),
            final(runtime).consecutive_ddc_failures,
        ),
{
    emit_device_snapshot_with_mode(device, events, runtime, PictureReadMode::Full);
}

/// A text that starts with the given prefix.
pub open spec fn has_prefix(s: Seq<char>, prefix: Seq<char>) -> bool {
    s.len() >= prefix.len() && s.subrange(0, prefix.len() as int) == prefix
}

/// The status after an autostart change: none when asked to be quiet.
pub open spec fn autostart_status_of(enabled: bool, quiet: bool) -> Seq<char> {
    if quiet {
        Seq::empty()
    } else if enabled {
        "Autostart enabled"@
    } else {
        "Autostart disabled"@
    }
}

fn prefixed(prefix: &str, text: &str) -> (r: String)
    ensures
        r@ == prefix@ + text@,
        has_prefix(r@, prefix@),
{
    let r = concat2(prefix, text);
    assert(r@.subrange(0, prefix@.len() as int) =~= prefix@);
    r
}

/// Runs one task on the device and reports what happened: `task_run` gives
/// the calls made, with which arguments, and the events sent for each answer.
#[verifier::spinoff_prover]
#[verifier::rlimit(60)]
pub fn execute_worker_task<D: WorkerDevice>(
    task: WorkerTask,
    device: &mut LoggedDevice<D>,
    events: &mut Vec<WorkerEvent>,
    runtime: &mut WorkerRuntimeState,
)
    ensures
        final(device).calls().len() >= old(device).calls().len(),
        final(device).calls().subrange(0, old(device).calls().len() as int) == old(device).calls(),
        final(events)@.len() >= old(events)@.len(),
        final(events)@.subrange(0, old(events)@.len() as int) == old(events)@,
        task_run(
            task,
            runtime_key(*old(runtime)),
            old(runtime).consecutive_ddc_failures,
            added_calls(final(device).calls(), old(device).calls().len() as int),
            added_events(final(events)@, old(events)@.len() as int),
            runtime_key(*final(runtime)),
            final(runtime).consecutive_ddc_failures,
        ),
{
    let ghost c0 = device.calls();
    let ghost e0 = events@;
    let ghost n = e0.len() as int;
    let ghost m = c0.len() as int;
    let ghost key0 = runtime_key(*runtime);
    let ghost count0 = runtime.consecutive_ddc_failures;
    match task {
        WorkerTask::RefreshAll => {
            let refreshed = device.refresh_monitors();
            let ghost c1 = device.calls();
            let ghost e1 = events@;
            emit_device_snapshot(device, events, runtime);
            let ghost e2 = events@;
            let ghost c2 = device.calls();
            match refreshed {
                Ok(()) => {
                    events.push(WorkerEvent::Status(String::from_str("Monitors refreshed")));
                },
                Err(error) => {
                    events.push(
                        WorkerEvent::Error(prefixed("Monitor refresh failed: ", error.as_str())),
                    );
                },
            }
            proof {
                assert(added_calls(c2, m).subrange(1, added_calls(c2, m).len() as int) =~= added_calls(
                    c2,
                    m + 1,
                ));
                assert(added_events(events@, n).drop_last() =~= added_events(e2, n));
                assert(added_calls(c2, m)[0] == c1[m]);
                assert(c2.subrange(0, m) =~= c0) by {
                    assert(c2.subrange(0, m) =~= c2.subrange(0, m + 1).subrange(0, m));
                }
            }
        },
        WorkerTask::ReadSnapshot => {
            emit_device_snapshot(device, events, runtime);
        },
        WorkerTask::RefreshAutostart => {
            let enabled = device.autostart_enabled();
            events.push(WorkerEvent::AutostartState { enabled, status: String::new() });
            proof {
                assert(added_events(events@, n) =~= seq![
                    EventView::AutostartState { enabled, status: Seq::empty() },
                ]);
                assert(device.calls().subrange(0, m) =~= c0);
                assert(added_calls(device.calls(), m)[0] == device.calls()[m]);
            }
        },
        WorkerTask::SelectMonitor { key } => {
            runtime.selected_monitor_key = Some(key);
            runtime.consecutive_ddc_failures = 0;
            emit_device_snapshot(device, events, runtime);
        },
        WorkerTask::SetAutostart { enabled, quiet } => {
            match device.set_autostart_enabled(enabled) {
                Ok(()) => {
                    let status = if quiet {
                        String::new()
                    } else if enabled {
                        String::from_str("Autostart enabled")
                    } else {
                        String::from_str("Autostart disabled")
                    };
                    events.push(WorkerEvent::AutostartState { enabled, status });
                    proof {
                        assert(added_events(events@, n) =~= seq![
                            EventView::AutostartState {
                                enabled,
                                status: autostart_status_of(enabled, quiet),
                            },
                        ]);
                    }
                },
                Err(error) => {
                    let ghost ev = error@;
                    events.push(
                        WorkerEvent::Error(prefixed("Autostart update failed: ", error.as_str())),
                    );
                    let actual = device.autostart_enabled();
                    events.push(WorkerEvent::AutostartState { enabled: actual, status: String::new() });
                    proof {
                        assert(added_events(events@, n) =~= seq![
                            EventView::Error("Autostart update failed: "@ + ev),
                            EventView::AutostartState { enabled: actual, status: Seq::empty() },
                        ]);
                        assert(added_calls(device.calls(), m)[1] == device.calls()[m + 1]);
                    }
                },
            }
            proof {
                assert(device.calls().subrange(0, m) =~= c0);
                assert(added_calls(device.calls(), m)[0] == device.calls()[m]);
            }
        },
        WorkerTask::SetHdr { enabled, use_cached_ddc_values } => {
            let answer = device.set_hdr_enabled(key_of(runtime), enabled);
            let ghost reply = reply_view(answer);
            let ghost c1 = device.calls();
            let error = match answer {
                Ok(()) => None,
                Err(e) => Some(prefixed("HDR update failed: ", e.as_str())),
            };
            assert(opt_text(error) == failure_text("HDR update failed: "@, reply));
            let may_defer = error.is_none() && !enabled && use_cached_ddc_values;
            if may_defer {
                let used = emit_device_snapshot_with_mode(
                    device,
                    events,
                    runtime,
                    PictureReadMode::DeferDdc,
                );
                let ghost c2 = device.calls();
                let ghost e2 = events@;
                let ghost mid = runtime.consecutive_ddc_failures;
                events.push(
                    WorkerEvent::HdrUpdateFinished { enabled, error, used_cached_ddc_values: used },
                );
                let ghost e3 = events@;
                if used {
                    emit_device_snapshot(device, events, runtime);
                }
                proof {
                    let calls = added_calls(device.calls(), m);
                    let evs = added_events(events@, n);
                    let i = c2.len() - m;
                    let j = e2.len() - n;
                    assert(calls.subrange(1, i) =~= added_calls(c2, m + 1)) by {
                        assert(device.calls().subrange(0, c2.len() as int) == c2);
                    }
                    assert(events@.subrange(0, e3.len() as int) == e3);
                    assert(e3.subrange(0, e2.len() as int) =~= e2);
                    assert forall|k: int| 0 <= k < j implies #[trigger] evs.subrange(0, j)[k]
                        == added_events(e2, n)[k] by {
                        assert(events@[n + k] == events@.subrange(0, e3.len() as int)[n + k]);
                        assert(e3[n + k] == e3.subrange(0, e2.len() as int)[n + k]);
                    }
                    assert(evs.subrange(0, j) =~= added_events(e2, n));
                    assert(evs[j] == event_view(e3[e2.len() as int])) by {
                        assert(events@.subrange(0, e3.len() as int) == e3);
                    }
                    if used {
                        assert(calls.subrange(i, calls.len() as int) =~= added_calls(
                            device.calls(),
                            c2.len() as int,
                        ));
                        assert(evs.subrange(j + 1, evs.len() as int) =~= added_events(
                            events@,
                            e3.len() as int,
                        ));
                    }
                    assert(cached_hdr_split(
                        key0,
                        count0,
                        enabled,
                        calls,
                        evs,
                        runtime.consecutive_ddc_failures,
                        i,
                        j,
                        mid,
                    ));
                    assert(calls[0] == c1[m]);
                    assert(device.calls().subrange(0, c2.len() as int) == c2);
                    assert(c2.subrange(0, c1.len() as int) == c1);
                    assert forall|k: int| 0 <= k < m implies #[trigger] device.calls()[k] == c0[k] by {
                        assert(device.calls()[k] == device.calls().subrange(0, c2.len() as int)[k]);
                        assert(c2[k] == c2.subrange(0, c1.len() as int)[k]);
                    }
                    assert(device.calls().subrange(0, m) =~= c0);
                    assert(events@.subrange(0, n) =~= e0) by {
                        assert(events@.subrange(0, e3.len() as int) == e3);
                    }
                }
            } else {
                emit_device_snapshot(device, events, runtime);
                let ghost e2 = events@;
                let ghost c2 = device.calls();
                events.push(
                    WorkerEvent::HdrUpdateFinished { enabled, error, used_cached_ddc_values: false },
                );
                proof {
                    assert(added_calls(c2, m).subrange(1, added_calls(c2, m).len() as int)
                        =~= added_calls(c2, m + 1));
                    assert(added_events(events@, n).drop_last() =~= added_events(e2, n));
                    assert(added_calls(c2, m)[0] == c1[m]);
                    assert(c2.subrange(0, m) =~= c0) by {
                        assert(c2.subrange(0, m) =~= c2.subrange(0, m + 1).subrange(0, m));
                    }
                }
            }
        },
        WorkerTask::SetSdrContentBrightness { percent } => {
            let answer = device.set_sdr_content_brightness(key_of(runtime), percent);
            let ghost reply = reply_view(answer);
            let ghost c1 = device.calls();
            let error = match answer {
                Ok(()) => None,
                Err(e) => Some(prefixed("SDR content brightness update failed: ", e.as_str())),
            };
            assert(opt_text(error) == failure_text("SDR content brightness update failed: "@, reply));
            emit_device_snapshot(device, events, runtime);
            let ghost e2 = events@;
            let ghost c2 = device.calls();
            events.push(
                WorkerEvent::SdrContentBrightnessFinished { requested_percent: percent, error },
            );
            proof {
                assert(added_calls(c2, m).subrange(1, added_calls(c2, m).len() as int) =~= added_calls(
                    c2,
                    m + 1,
                ));
                assert(added_events(events@, n).drop_last() =~= added_events(e2, n));
                assert(added_calls(c2, m)[0] == c1[m]);
                assert(c2.subrange(0, m) =~= c0) by {
                    assert(c2.subrange(0, m) =~= c2.subrange(0, m + 1).subrange(0, m));
                }
            }
        },
        WorkerTask::WriteVcp { code, value, input_status } => {
            match device.write_vcp(key_of(runtime), code, value) {
                Ok(()) => {
                    if input_status {
                        let hex = hex_string(value as u64);
                        events.push(WorkerEvent::Status(prefixed("Input set to 0x", hex.as_str())));
                        assert(added_events(events@, n) =~= seq![
                            EventView::Status("Input set to 0x"@ + hex_seq(value as nat)),
                        ]);
                    } else {
                        assert(added_events(events@, n) =~= Seq::<EventView>::empty());
                    }
                },
                Err(message) => {
                    let ghost mv = message@;
                    events.push(WorkerEvent::Error(message));
                    assert(added_events(events@, n) =~= seq![EventView::Error(mv)]);
                },
            }
            proof {
                assert(device.calls().subrange(0, m) =~= c0);
                assert(added_calls(device.calls(), m)[0] == device.calls()[m]);
            }
        },
    }
    assert(events@.subrange(0, n) =~= e0);
}

/// The monitor keys in order.
pub open spec fn monitor_keys(monitors: Seq<MonitorRecord>) -> Seq<Seq<char>> {
    Seq::new(monitors.len(), |i: int| choice_of(monitors, i).0)
}

pub open spec fn text_is(key: Seq<char>) -> spec_fn(Seq<char>) -> bool {
    |k: Seq<char>| k == key
}

/// The monitor a device request addresses, by the keys of the monitors:
/// the one with the selected key and no fallback, else the first.
pub open spec fn selected_monitor_spec(monitors: Seq<MonitorRecord>, selected: Option<Seq<char>>) -> Result<
    int,
    Seq<char>,
> {
    let key = match selected {
        Some(k) => k,
        None => Seq::empty(),
    };
    if key.len() > 0 {
        match first_where(monitor_keys(monitors), text_is(key)) {
            Some(i) => Ok(i),
            None => Err("Selected monitor is unavailable"@),
        }
    } else if monitors.len() == 0 {
        Err("No monitor is selected"@)
    } else {
        Ok(0)
    }
}

proof fn lemma_first_where_congruent<A, B>(
    s: Seq<A>,
    t: Seq<B>,
    p: spec_fn(A) -> bool,
    q: spec_fn(B) -> bool,
)
    requires
        s.len() == t.len(),
        forall|i: int| 0 <= i < s.len() ==> p(s[i]) == q(t[i]),
    ensures
        first_where(s, p) == first_where(t, q),
    decreases s.len(),
{
    if s.len() > 0 {
        assert forall|i: int| 0 <= i < s.len() - 1 implies p(s.drop_last()[i]) == q(
            t.drop_last()[i],
        ) by {
            assert(s.drop_last()[i] == s[i]);
            assert(t.drop_last()[i] == t[i]);
        }
        lemma_first_where_congruent(s.drop_last(), t.drop_last(), p, q);
    }
}

/// Finds the monitor a device request addresses.
fn select_device_monitor(monitors: &[MonitorRecord], selected_monitor_key: Option<&str>) -> (r:
    Result<usize, String>)
    ensures
        match selected_monitor_spec(monitors@, opt_str_view(selected_monitor_key)) {
            Ok(i) => r == Ok::<usize, String>(i as usize) && 0 <= i < monitors@.len(),
            Err(m) => r matches Err(e) && e@ == m,
        },
{
    let choices = monitor_choices(monitors);
    proof {
        let key = match opt_str_view(selected_monitor_key) {
            Some(k) => k,
            None => Seq::<char>::empty(),
        };
        let keys = monitor_keys(monitors@);
        assert forall|i: int| 0 <= i < choices@.len() implies choice_key_is(key)(choices@[i])
            == text_is(key)(keys[i]) by {
            assert(choices@[i].key@ == choice_of(monitors@, i).0);
        }
        lemma_first_where_congruent(choices@, keys, choice_key_is(key), text_is(key));
        lemma_first_where(keys, text_is(key));
    }
    strict_selected_monitor_index(&choices, selected_monitor_key)
}

/// The text for a monitor without a display mapping: the prefix, with the
/// reason the mapping failed where one is known.
pub open spec fn mapping_error_text(m: MonitorRecord, prefix: Seq<char>) -> Seq<char> {
    match m.diagnostics.display_mapping_error {
        Some(e) => prefix + ": "@ + e@,
        None => prefix,
    }
}

fn mapping_error_message(monitor: &MonitorRecord, prefix: &str) -> (r: String)
    ensures
        r@ == mapping_error_text(*monitor, prefix@),
{
    match &monitor.diagnostics.display_mapping_error {
        Some(e) => concat3(prefix, ": ", e.as_str()),
        None => String::from_str(prefix),
    }
}

/// The system actions that the device requests make on a monitor: reading
/// and setting its Windows HDR state, Windows' SDR content brightness, and
/// DDC writes.
pub trait MonitorActions {
    fn hdr_state(&self, target: &DisplayTargetId) -> Result<HdrState, DdcError>;

    fn set_vcp(&self, monitor_index: usize, code: u8, value: u32) -> Result<(), DdcError>;

    fn set_hdr_enabled(&self, target: &DisplayTargetId, enabled: bool) -> Result<
        HdrState,
        DdcError,
    >;

    fn set_sdr_content_brightness(&self, target: &DisplayTargetId, percent: u32) -> Result<
        (),
        DdcError,
    >;
}

pub open spec fn is_picture_code(code: u8) -> bool {
    code == BRIGHTNESS_CODE || code == CONTRAST_CODE
}

/// Writes a VCP value to the addressed monitor. A brightness or contrast
/// write needs the monitor's display mapping and a known HDR state with HDR
/// not active.
pub fn write_feature<A: MonitorActions>(
    monitors: &[MonitorRecord],
    selected_monitor_key: Option<&str>,
    code: u8,
    value: u32,
    actions: &A,
) -> (r: Result<(), String>)
    ensures
        match selected_monitor_spec(monitors@, opt_str_view(selected_monitor_key)) {
            Err(m) => r matches Err(e) && e@ == m,
            Ok(i) => {
                &&& is_picture_code(code) && monitors@[i].display_target is None ==> (r matches Err(
                    e,
                ) && e@ == mapping_error_text(
                    monitors@[i],
                    "Windows display mapping is unavailable"@,
                ))
                &&& r is Ok ==> (is_picture_code(code) ==> monitors@[i].display_target is Some)
                &&& !is_picture_code(code) ==> (r matches Err(e) ==> has_prefix(e@, "Set failed: "@))
                &&& r matches Err(e) ==> (e@ == mapping_error_text(
                    monitors@[i],
                    "Windows display mapping is unavailable"@,
                ) || has_prefix(
                    e@,
                    "Windows HDR state is unavailable; DDC picture write canceled: "@,
                ) || e@ == "Windows HDR is active; DDC picture write canceled"@ || has_prefix(
                    e@,
                    "Set failed: "@,
                ))
            },
        },
{
    let index = match select_device_monitor(monitors, selected_monitor_key) {
        Ok(i) => i,
        Err(e) => {
            return Err(e);
        },
    };
    let monitor = &monitors[index];
    if code == BRIGHTNESS_CODE || code == CONTRAST_CODE {
        let target = match &monitor.display_target {
            Some(t) => t,
            None => {
                return Err(
                    mapping_error_message(monitor, "Windows display mapping is unavailable"),
                );
            },
        };
        let state = match actions.hdr_state(target) {
            Ok(s) => s,
            Err(e) => {
                let m = e.message();
                let r = concat2(
                    "Windows HDR state is unavailable; DDC picture write canceled: ",
                    m.as_str(),
                );
                assert(r@.subrange(
                    0,
                    "Windows HDR state is unavailable; DDC picture write canceled: "@.len() as int,
                ) =~= "Windows HDR state is unavailable; DDC picture write canceled: "@);
                return Err(r);
            },
        };
        match validate_ddc_picture_write(code, Some(state)) {
            Ok(()) => {},
            Err(e) => {
                return Err(e);
            },
        }
    }
    match actions.set_vcp(index, code, value) {
        Ok(()) => Ok(()),
        Err(e) => {
            let m = e.message();
            let r = concat2("Set failed: ", m.as_str());
            assert(r@.subrange(0, "Set failed: "@.len() as int) =~= "Set failed: "@);
            Err(r)
        },
    }
}

/// Turns Windows HDR on or off for the addressed monitor, which needs its
/// display mapping.
pub fn set_hdr_for_monitor<A: MonitorActions>(
    monitors: &[MonitorRecord],
    selected_monitor_key: Option<&str>,
    enabled: bool,
    actions: &A,
) -> (r: Result<(), String>)
    ensures
        match selected_monitor_spec(monitors@, opt_str_view(selected_monitor_key)) {
            Err(m) => r matches Err(e) && e@ == m,
            Ok(i) => monitors@[i].display_target is None ==> (r matches Err(e) && e@
                == mapping_error_text(monitors@[i], "HDR display mapping is unavailable"@)),
        },
{
    let index = match select_device_monitor(monitors, selected_monitor_key) {
        Ok(i) => i,
        Err(e) => {
            return Err(e);
        },
    };
    let monitor = &monitors[index];
    let target = match &monitor.display_target {
        Some(t) => t,
        None => {
            return Err(mapping_error_message(monitor, "HDR display mapping is unavailable"));
        },
    };
    match actions.set_hdr_enabled(target, enabled) {
        Ok(_) => Ok(()),
        Err(e) => Err(e.message()),
    }
}

/// Sets Windows' SDR content brightness for the addressed monitor, which
/// needs its display mapping and HDR still active.
pub fn set_sdr_content_brightness_for_monitor<A: MonitorActions>(
    monitors: &[MonitorRecord],
    selected_monitor_key: Option<&str>,
    percent: u32,
    actions: &A,
) -> (r: Result<(), String>)
    ensures
        match selected_monitor_spec(monitors@, opt_str_view(selected_monitor_key)) {
            Err(m) => r matches Err(e) && e@ == m,
            Ok(i) => monitors@[i].display_target is None ==> (r matches Err(e) && e@
                == mapping_error_text(monitors@[i], "Windows display mapping is unavailable"@)),
        },
{
    let index = match select_device_monitor(monitors, selected_monitor_key) {
        Ok(i) => i,
        Err(e) => {
            return Err(e);
        },
    };
    let monitor = &monitors[index];
    let target = match &monitor.display_target {
        Some(t) => t,
        None => {
            return Err(mapping_error_message(monitor, "Windows display mapping is unavailable"));
        },
    };
    let state = match actions.hdr_state(target) {
        Ok(s) => s,
        Err(e) => {
            return Err(e.message());
        },
    };
    if !state.active {
        return Err(String::from_str("Windows HDR is no longer active"));
    }
    match actions.set_sdr_content_brightness(target, percent) {
        Ok(()) => Ok(()),
        Err(e) => Err(e.message()),
    }
}

} // verus!
