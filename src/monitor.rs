use crate::error::CaptureError;
use vstd::prelude::*;

verus! {

/// Name given to a display for which the windowing layer reports none.
pub const UNNAMED_MONITOR: &'static str = "Monitior name not found";

/// One active display as the windowing layer describes it.
#[derive(Clone, Debug, PartialEq, Eq)]
pub struct Monitor {
    pub name: String,
    pub width: i32,
    pub height: i32,
    pub x: i32,
    pub y: i32,
}

impl Monitor {
    /// A display's size is never negative.
    pub open spec fn has_valid_size(&self) -> bool {
        self.width >= 0 && self.height >= 0
    }
}

/// What the windowing layer reports of a display, before it is checked:
/// the name may be missing and the size is unsigned.
#[derive(Clone, Debug, PartialEq, Eq)]
pub struct RawMonitor {
    pub name: Option<String>,
    pub width: u32,
    pub height: u32,
    pub x: i32,
    pub y: i32,
}

/// The display's size can be held by a descriptor without wrapping.
pub open spec fn fits_descriptor(raw: RawMonitor) -> bool {
    raw.width <= i32::MAX && raw.height <= i32::MAX
}

/// The name a descriptor of `raw` carries.
pub open spec fn descriptor_name(raw: RawMonitor) -> Seq<char> {
    match raw.name {
        Some(n) => n@,
        None => UNNAMED_MONITOR@,
    }
}

/// `m` is the descriptor of the reported display `raw`.
pub open spec fn describes(raw: RawMonitor, m: Monitor) -> bool {
    &&& m.name@ == descriptor_name(raw)
    &&& m.width as int == raw.width as int
    &&& m.height as int == raw.height as int
    &&& m.x == raw.x
    &&& m.y == raw.y
}

/// Turns what the windowing layer reported into descriptors, one per display
/// and in the reported order. A display without a name gets
/// `UNNAMED_MONITOR`; one whose size does not fit an `i32` fails the whole
/// enumeration rather than wrap.
pub fn describe_monitors(raw: &Vec<RawMonitor>) -> (r: Result<Vec<Monitor>, CaptureError>)
    ensures
        r is Err <==> exists|i: int| 0 <= i < raw@.len() && !fits_descriptor(#[trigger] raw@[i]),
        r matches Err(e) ==> e == CaptureError::EnumerationError,
        r matches Ok(ms) ==> {
            &&& ms@.len() == raw@.len()
            &&& forall|i: int| 0 <= i < raw@.len() ==> describes(#[trigger] raw@[i], ms@[i])
            &&& forall|i: int| 0 <= i < ms@.len() ==> (#[trigger] ms@[i]).has_valid_size()
        },
{
    let mut ms: Vec<Monitor> = Vec::new();
    let mut i: usize = 0;
    while i < raw.len()
        invariant
            i <= raw@.len(),
            ms@.len() == i,
            forall|j: int| 0 <= j < i ==> fits_descriptor(#[trigger] raw@[j]),
            forall|j: int| 0 <= j < i ==> describes(#[trigger] raw@[j], ms@[j]),
            forall|j: int| 0 <= j < i ==> (#[trigger] ms@[j]).has_valid_size(),
        decreases raw@.len() - i,
    {
        let d = &raw[i];
        if d.width > 2147483647u32 || d.height > 2147483647u32 {
            assert(!fits_descriptor(raw@[i as int]));
            return Err(CaptureError::EnumerationError);
        }
        let name = match &d.name {
            Some(n) => n.clone(),
            None => String::from_str(UNNAMED_MONITOR),
        };
        ms.push(Monitor { name, width: d.width as i32, height: d.height as i32, x: d.x, y: d.y });
        i = i + 1;
    }
    Ok(ms)
}

/// `i` is the position of the first descriptor in `ms` named `name`.
pub open spec fn is_first_named(ms: Seq<Monitor>, name: Seq<char>, i: int) -> bool {
    &&& 0 <= i < ms.len()
    &&& ms[i].name@ == name
    &&& forall|j: int| 0 <= j < i ==> (#[trigger] ms[j]).name@ != name
}

/// No descriptor in `ms` is named `name`.
pub open spec fn names_absent(ms: Seq<Monitor>, name: Seq<char>) -> bool {
    forall|j: int| 0 <= j < ms.len() ==> (#[trigger] ms[j]).name@ != name
}

/// The position of the first descriptor named `name`; an unknown name is
/// `MonitorNotFound`, never a default position.
pub fn resolve_monitor(monitors: &Vec<Monitor>, name: &str) -> (r: Result<usize, CaptureError>)
    ensures
        r is Err <==> names_absent(monitors@, name@),
        r matches Err(e) ==> e == CaptureError::MonitorNotFound,
        r matches Ok(i) ==> is_first_named(monitors@, name@, i as int),
{
    let target = String::from_str(name);
    let mut i: usize = 0;
    while i < monitors.len()
        invariant
            i <= monitors@.len(),
            target@ == name@,
            forall|j: int| 0 <= j < i ==> (#[trigger] monitors@[j]).name@ != name@,
        decreases monitors@.len() - i,
    {
        if monitors[i].name == target {
            return Ok(i);
        }
        i = i + 1;
    }
    Err(CaptureError::MonitorNotFound)
}

/// A name that some descriptor carries resolves, and to a position within
/// the list, no later than that descriptor.
pub proof fn lemma_resolved_index_in_range(ms: Seq<Monitor>, name: Seq<char>, k: int)
    requires
        0 <= k < ms.len(),
        ms[k].name@ == name,
    ensures
        !names_absent(ms, name),
        exists|i: int| #[trigger] is_first_named(ms, name, i) && 0 <= i <= k,
        forall|i: int| #[trigger] is_first_named(ms, name, i) ==> 0 <= i < ms.len(),
    decreases k,
{
    if forall|j: int| 0 <= j < k ==> (#[trigger] ms[j]).name@ != name {
        assert(is_first_named(ms, name, k));
    } else {
        let j = choose|j: int| 0 <= j < k && (#[trigger] ms[j]).name@ == name;
        lemma_resolved_index_in_range(ms, name, j);
    }
}

} // verus!
