use vstd::prelude::*;

verus! {

/// What the screen grabber reports of one display.
#[derive(Debug)]
pub struct DisplayFacts {
    pub name: String,
    pub width: u32,
    pub height: u32,
    pub is_primary: bool,
}

/// A display as the UI layer sees it. `id` is its position in one
/// enumeration, not a lasting identity.
#[derive(Debug)]
pub struct MonitorInfo {
    pub id: u32,
    pub name: String,
    pub width: u32,
    pub height: u32,
    pub is_primary: bool,
}

/// `info` describes `facts` as the display at position `id`.
pub open spec fn describes(info: MonitorInfo, facts: DisplayFacts, id: int) -> bool {
    &&& info.id == id
    &&& info.name@ == facts.name@
    &&& info.width == facts.width
    &&& info.height == facts.height
    &&& info.is_primary == facts.is_primary
}

/// Numbers the displays of one enumeration by their position.
pub fn describe_monitors(displays: &Vec<DisplayFacts>) -> (r: Vec<MonitorInfo>)
    requires
        displays.len() <= u32::MAX as usize + 1,
    ensures
        r.len() == displays.len(),
        forall|i: int| 0 <= i < r.len() ==> describes(#[trigger] r[i], displays[i], i),
{
    let mut out: Vec<MonitorInfo> = Vec::new();
    let mut i: usize = 0;
    while i < displays.len()
        invariant
            displays.len() <= u32::MAX as usize + 1,
            i <= displays.len(),
            out.len() == i,
            forall|j: int| 0 <= j < i ==> describes(#[trigger] out[j], displays[j], j),
        decreases displays.len() - i,
    {
        let d = &displays[i];
        out.push(
            MonitorInfo {
                id: i as u32,
                name: d.name.clone(),
                width: d.width,
                height: d.height,
                is_primary: d.is_primary,
            },
        );
        i = i + 1;
    }
    out
}

/// Position, in one enumeration of `count` displays, of the display that a
/// session was started on; `None` when there is no such display.
pub fn locate_monitor(count: usize, monitor_id: u32) -> (r: Option<usize>)
    ensures
        (monitor_id as int) < count ==> r == Some(monitor_id as usize),
        (monitor_id as int) >= count ==> r is None,
{
    if (monitor_id as usize) < count {
        Some(monitor_id as usize)
    } else {
        None
    }
}

} // verus!
