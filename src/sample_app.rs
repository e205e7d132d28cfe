use vstd::prelude::*;

use crate::engine_factory::{EngineCreateInfo, EngineFactory, DEFAULT_ADAPTER_ID};
use crate::graphics_types::{AdapterType, GraphicsAdapterInfo, RenderDeviceType};
use crate::native_app::GoldenImageMode;

verus! {

/// Adapter `a` is preferred over adapter `b`: it is of a more preferred kind,
/// or of the same kind with more memory.
pub open spec fn preferred_over(a: GraphicsAdapterInfo, b: GraphicsAdapterInfo) -> bool {
    ||| a.adapter_type.spec_rank() > b.adapter_type.spec_rank()
    ||| (a.adapter_type.spec_rank() == b.adapter_type.spec_rank() && a.memory.spec_total()
        > b.memory.spec_total())
}

/// `i` is the first of the most preferred adapters.
pub open spec fn is_best_adapter(adapters: Seq<GraphicsAdapterInfo>, i: int) -> bool {
    &&& 0 <= i < adapters.len()
    &&& forall|j: int| 0 <= j < i ==> preferred_over(adapters[i], #[trigger] adapters[j])
    &&& forall|j: int| i < j < adapters.len() ==> !preferred_over(#[trigger] adapters[j], adapters[i])
}

/// `i` is the first adapter of kind `t`.
pub open spec fn is_first_of_type(adapters: Seq<GraphicsAdapterInfo>, t: AdapterType, i: int) -> bool {
    &&& 0 <= i < adapters.len()
    &&& adapters[i].adapter_type == t
    &&& forall|j: int| 0 <= j < i ==> (#[trigger] adapters[j]).adapter_type != t
}

/// At most one adapter is the first of the most preferred ones, so the choice
/// that `find_adapter` makes among adapters of equal standing is determined.
pub proof fn lemma_best_adapter_unique(adapters: Seq<GraphicsAdapterInfo>, i: int, k: int)
    requires
        is_best_adapter(adapters, i),
        is_best_adapter(adapters, k),
    ensures
        i == k,
{
    if i < k {
        assert(preferred_over(adapters[k], adapters[i]));
    } else if k < i {
        assert(preferred_over(adapters[i], adapters[k]));
    }
}

pub open spec fn has_type(adapters: Seq<GraphicsAdapterInfo>, t: AdapterType) -> bool {
    exists|j: int| 0 <= j < adapters.len() && (#[trigger] adapters[j]).adapter_type == t
}

fn is_preferred_over(a: &GraphicsAdapterInfo, b: &GraphicsAdapterInfo) -> (r: bool)
    ensures
        r == preferred_over(*a, *b),
{
    let ra = a.adapter_type.rank();
    let rb = b.adapter_type.rank();
    ra > rb || (ra == rb && a.memory.total() > b.memory.total())
}

/// The index of the first adapter of kind `adapter_type`, if there is one.
fn position_of_type(adapter_type: AdapterType, adapters: &Vec<GraphicsAdapterInfo>) -> (r: Option<
    usize,
>)
    ensures
        match r {
            Some(i) => is_first_of_type(adapters@, adapter_type, i as int),
            None => !has_type(adapters@, adapter_type),
        },
{
    let mut i: usize = 0;
    while i < adapters.len()
        invariant
            i <= adapters.len(),
            forall|j: int| 0 <= j < i ==> (#[trigger] adapters@[j]).adapter_type != adapter_type,
        decreases adapters.len() - i,
    {
        if adapters[i].adapter_type == adapter_type {
            return Some(i);
        }
        i = i + 1;
    }
    None
}

/// The index of the first of the most preferred adapters, `None` if there are none.
fn best_adapter(adapters: &Vec<GraphicsAdapterInfo>) -> (r: Option<usize>)
    ensures
        match r {
            Some(i) => is_best_adapter(adapters@, i as int),
            None => adapters@.len() == 0,
        },
{
    if adapters.len() == 0 {
        return None;
    }
    let mut best: usize = 0;
    let mut i: usize = 1;
    while i < adapters.len()
        invariant
            0 <= best < i <= adapters.len(),
            forall|j: int| 0 <= j < best ==> preferred_over(adapters@[best as int], #[trigger] adapters@[j]),
            forall|j: int| best < j < i ==> !preferred_over(#[trigger] adapters@[j], adapters@[best as int]),
        decreases adapters.len() - i,
    {
        if is_preferred_over(&adapters[i], &adapters[best]) {
            best = i;
        }
        i = i + 1;
    }
    Some(best)
}

/// Chooses the adapter to create the device on.
///
/// A valid `adapter_index` is kept. Otherwise the first adapter of kind
/// `adapter_type` is taken, unless that kind is `Unknown` or no adapter is of it.
/// Otherwise the most preferred adapter is taken: discrete over integrated over
/// software, then the one with the most memory, then the first. The result is
/// `None` only where there are no adapters.
pub fn find_adapter(
    adapter_index: Option<usize>,
    adapter_type: AdapterType,
    adapters: &Vec<GraphicsAdapterInfo>,
) -> (r: Option<usize>)
    ensures
        match adapter_index {
            Some(i) if i < adapters@.len() => r == Some(i),
            _ => if adapter_type != AdapterType::Unknown && has_type(adapters@, adapter_type) {
                r is Some && is_first_of_type(adapters@, adapter_type, r->0 as int)
            } else {
                match r {
                    Some(i) => is_best_adapter(adapters@, i as int),
                    None => adapters@.len() == 0,
                }
            },
        },
{
    if let Some(i) = adapter_index {
        if i < adapters.len() {
            return Some(i);
        }
    }
    if adapter_type != AdapterType::Unknown {
        let found = position_of_type(adapter_type, adapters);
        if found.is_some() {
            return found;
        }
    }
    best_adapter(adapters)
}

/// Points `create_info` at the most preferred of the adapters that `factory`
/// enumerates, as `find_adapter` chooses with no index and no kind given, and
/// returns that adapter's index. Where there is no adapter, or the index does
/// not fit in an adapter id, `create_info` is left as it was.
pub fn select_adapter(factory: &EngineFactory, create_info: &mut EngineCreateInfo) -> (r: Option<
    usize,
>)
    ensures
        match r {
            Some(i) => {
                &&& is_best_adapter(factory.spec_adapters(), i as int)
                &&& if i < DEFAULT_ADAPTER_ID {
                    &&& final(create_info).spec_adapter_index() == Some(i as int)
                    &&& final(create_info).same_except_adapter(*old(create_info))
                } else {
                    *final(create_info) == *old(create_info)
                }
            },
            None => factory.spec_adapters().len() == 0 && *final(create_info) == *old(create_info),
        },
{
    let r = find_adapter(None, AdapterType::Unknown, factory.enumerate_adapters());
    if let Some(i) = r {
        create_info.set_adapter_index(i);
    }
    r
}

/// Whether the sample harness can create a device of this kind: it drives the
/// Vulkan backend only.
pub fn is_supported_device_type(device_type: RenderDeviceType) -> (r: bool)
    ensures
        r == (device_type == RenderDeviceType::VULKAN),
{
    match device_type {
        RenderDeviceType::VULKAN => true,
        _ => false,
    }
}

/// What the platform's event handler made of one window event.
#[derive(Clone, Copy, Debug, PartialEq, Eq, Structural)]
pub enum EventResult {
    Continue,
    Quit,
    Resize { width: u16, height: u16 },
}

/// What the main loop does with one event.
#[derive(Clone, Copy, Debug, PartialEq, Eq, Structural)]
pub enum EventAction {
    /// Leave the main loop; the event goes no further.
    Quit,
    /// Hand the event on to the UI and then to the sample.
    Forward,
    /// Resize the swap chain to the given size, then hand the event on.
    ResizeAndForward { width: u32, height: u32 },
}

/// The width of the adapters window: the swap chain's width, at most this.
pub const ADAPTERS_WINDOW_MAX_WIDTH: u32 = 330;

/// The margin between the adapters window and the top right corner.
pub const ADAPTERS_WINDOW_MARGIN: u32 = 10;

/// Where the adapters window stands, in pixels.
#[derive(Clone, Copy, Debug, PartialEq, Eq, Structural)]
pub struct WindowLayout {
    pub x: u32,
    pub y: u32,
    pub width: u32,
}

/// The state of a sample application that its main loop decides on: the
/// title, the golden image settings, the vertical sync switch and the size the
/// window was created with.
pub struct SampleAppState {
    app_title: String,
    golden_image_mode: GoldenImageMode,
    golden_pixel_tolerance: u32,
    vsync: bool,
    width: u16,
    height: u16,
}

impl SampleAppState {
    pub closed spec fn spec_title(&self) -> Seq<char> {
        self.app_title@
    }

    pub closed spec fn spec_golden_image_mode(&self) -> GoldenImageMode {
        self.golden_image_mode
    }

    pub closed spec fn spec_golden_pixel_tolerance(&self) -> u32 {
        self.golden_pixel_tolerance
    }

    pub closed spec fn spec_vsync(&self) -> bool {
        self.vsync
    }

    pub closed spec fn spec_width(&self) -> u16 {
        self.width
    }

    pub closed spec fn spec_height(&self) -> u16 {
        self.height
    }

    /// A sample titled `app_title` in a window of the given size, with no
    /// golden image check and vertical sync off.
    pub fn new(app_title: String, initial_width: u16, initial_height: u16) -> (r: SampleAppState)
        ensures
            r.spec_title() == app_title@,
            r.spec_golden_image_mode() == GoldenImageMode::Off,
            r.spec_golden_pixel_tolerance() == 0,
            !r.spec_vsync(),
            r.spec_width() == initial_width,
            r.spec_height() == initial_height,
    {
        SampleAppState {
            app_title,
            golden_image_mode: GoldenImageMode::Off,
            golden_pixel_tolerance: 0,
            vsync: false,
            width: initial_width,
            height: initial_height,
        }
    }

    pub fn get_title(&self) -> (r: &str)
        ensures
            r@ == self.spec_title(),
    {
        self.app_title.as_str()
    }

    pub fn golden_image_mode(&self) -> (r: GoldenImageMode)
        ensures
            r == self.spec_golden_image_mode(),
    {
        self.golden_image_mode
    }

    pub fn golden_pixel_tolerance(&self) -> (r: u32)
        ensures
            r == self.spec_golden_pixel_tolerance(),
    {
        self.golden_pixel_tolerance
    }

    pub fn width(&self) -> (r: u16)
        ensures
            r == self.spec_width(),
    {
        self.width
    }

    pub fn height(&self) -> (r: u16)
        ensures
            r == self.spec_height(),
    {
        self.height
    }

    pub fn vsync(&self) -> (r: bool)
        ensures
            r == self.spec_vsync(),
    {
        self.vsync
    }

    /// Turns vertical sync on or off, as the UI's check box does.
    pub fn set_vsync(&mut self, vsync: bool)
        ensures
            final(self).spec_vsync() == vsync,
            final(self).spec_title() == old(self).spec_title(),
            final(self).spec_golden_image_mode() == old(self).spec_golden_image_mode(),
            final(self).spec_golden_pixel_tolerance() == old(self).spec_golden_pixel_tolerance(),
            final(self).spec_width() == old(self).spec_width(),
            final(self).spec_height() == old(self).spec_height(),
    {
        self.vsync = vsync;
    }

    /// The sync interval to present with: one vertical blank with vertical
    /// sync on, none with it off.
    pub fn sync_interval(&self) -> (r: u32)
        ensures
            r == (if self.spec_vsync() { 1u32 } else { 0u32 }),
    {
        if self.vsync {
            1
        } else {
            0
        }
    }
}

/// What the main loop does with an event: a quit request ends the loop, a
/// resize resizes the swap chain first, and every other event goes on to the
/// UI and the sample.
pub fn dispatch_event(event: EventResult) -> (r: EventAction)
    ensures
        match event {
            EventResult::Quit => r == EventAction::Quit,
            EventResult::Resize { width, height } => r == (EventAction::ResizeAndForward {
                width: width as u32,
                height: height as u32,
            }),
            EventResult::Continue => r == EventAction::Forward,
        },
{
    match event {
        EventResult::Quit => EventAction::Quit,
        EventResult::Resize { width, height } => EventAction::ResizeAndForward {
            width: width as u32,
            height: height as u32,
        },
        EventResult::Continue => EventAction::Forward,
    }
}

/// The adapters window for a swap chain `swap_chain_width` pixels wide: as
/// wide as the swap chain, at most `ADAPTERS_WINDOW_MAX_WIDTH`, at the top
/// right corner with a margin of `ADAPTERS_WINDOW_MARGIN`. Where the window
/// fills the width, or leaves no more than the margin, it stands at the left
/// edge.
pub fn adapters_window_layout(swap_chain_width: u32) -> (r: WindowLayout)
    ensures
        r.width == (if swap_chain_width < ADAPTERS_WINDOW_MAX_WIDTH {
            swap_chain_width
        } else {
            ADAPTERS_WINDOW_MAX_WIDTH
        }),
        r.x == (if swap_chain_width - r.width > ADAPTERS_WINDOW_MARGIN {
            swap_chain_width - r.width - ADAPTERS_WINDOW_MARGIN
        } else {
            0
        }),
        r.y == ADAPTERS_WINDOW_MARGIN,
{
    let width = if swap_chain_width < ADAPTERS_WINDOW_MAX_WIDTH {
        swap_chain_width
    } else {
        ADAPTERS_WINDOW_MAX_WIDTH
    };
    let free = swap_chain_width - width;
    let x = if free > ADAPTERS_WINDOW_MARGIN {
        free - ADAPTERS_WINDOW_MARGIN
    } else {
        0
    };
    WindowLayout { x, y: ADAPTERS_WINDOW_MARGIN, width }
}

} // verus!
