use vstd::prelude::*;

use crate::apt::{Apt, UpdateError, update_outcome};
use crate::scheduler::UpdatePolicy;
use crate::text::{from_chars, push_str};
use crate::widget::{ButtonWidget, WidgetView, fragment};

verus! {

/// A mouse button of a click event.
#[derive(PartialEq, Eq, Structural, Debug, Clone, Copy)]
pub enum MouseButton {
    Left,
    Middle,
    Right,
    WheelUp,
    WheelDown,
    Other,
}

impl MouseButton {
    /// The button of a click record's button code: 1 to 5 for left, middle,
    /// right, wheel up and wheel down; any other code is `Other`.
    pub fn from_code(code: u64) -> (r: MouseButton)
        ensures
            r == (if code == 1 {
                MouseButton::Left
            } else if code == 2 {
                MouseButton::Middle
            } else if code == 3 {
                MouseButton::Right
            } else if code == 4 {
                MouseButton::WheelUp
            } else if code == 5 {
                MouseButton::WheelDown
            } else {
                MouseButton::Other
            }),
    {
        if code == 1 {
            MouseButton::Left
        } else if code == 2 {
            MouseButton::Middle
        } else if code == 3 {
            MouseButton::Right
        } else if code == 4 {
            MouseButton::WheelUp
        } else if code == 5 {
            MouseButton::WheelDown
        } else {
            MouseButton::Other
        }
    }
}

/// One click event: the id of the block it names, the button and the pointer
/// position.
#[derive(PartialEq, Eq, Structural, Debug, Clone, Copy)]
pub struct ClickEvent {
    pub id: usize,
    pub button: MouseButton,
    pub x: i64,
    pub y: i64,
}

} // verus!

verus! {

/// A block of the bar: the closed set of block kinds.
pub enum Block {
    /// The package-update block.
    Apt(Apt),
    /// A block that shows a fixed widget and never needs waking.
    Label(ButtonWidget),
}

impl Block {
    /// The widget cache of the block is consistent.
    pub open spec fn wf(&self) -> bool {
        match self {
            Block::Apt(a) => a.wf(),
            Block::Label(w) => w.wf(),
        }
    }

    /// The block's widget, as a value.
    pub open spec fn widget_view(&self) -> WidgetView {
        match self {
            Block::Apt(a) => a@.output,
            Block::Label(w) => w@,
        }
    }

    /// The block's widget.
    pub fn widget(&self) -> (r: &ButtonWidget)
        ensures
            r@ == self.widget_view(),
            self.wf() ==> r.wf(),
    {
        match self {
            Block::Apt(a) => {
                let v = a.widgets();
                v[0]
            },
            Block::Label(w) => w,
        }
    }
}

/// The records of the first `n` widgets, separated by commas.
pub open spec fn joined(ws: Seq<WidgetView>, n: int) -> Seq<char>
    decreases n,
{
    if n <= 0 {
        Seq::empty()
    } else if n == 1 {
        fragment(ws[0])
    } else {
        joined(ws, n - 1) + ","@ + fragment(ws[n - 1])
    }
}

/// One output frame: the records of all widgets in registration order, as a
/// JSON array.
pub open spec fn frame_of(ws: Seq<WidgetView>) -> Seq<char> {
    "["@ + joined(ws, ws.len() as int) + "]"@
}

/// The blocks in registration order; a block's position is its id.
pub struct Registry {
    blocks: Vec<Block>,
}

impl View for Registry {
    type V = Seq<WidgetView>;

    closed spec fn view(&self) -> Seq<WidgetView> {
        self.blocks@.map_values(|b: Block| b.widget_view())
    }
}

impl Registry {
    /// Every block's widget cache is consistent.
    pub closed spec fn wf(&self) -> bool {
        forall|i: int| 0 <= i < self.blocks@.len() ==> (#[trigger] self.blocks@[i]).wf()
    }

    /// The block registered at position `i`.
    pub closed spec fn block_at(&self, i: int) -> Block {
        self.blocks@[i]
    }

    /// The block at `id` is one whose left click asks for a refresh.
    pub open spec fn refreshes_on_left_click(&self, id: int) -> bool {
        self.block_at(id) is Apt
    }

    /// A registry with no blocks.
    pub fn new() -> (r: Registry)
        ensures
            r.wf(),
            r@ == Seq::<WidgetView>::empty(),
    {
        Registry { blocks: Vec::new() }
    }

    /// The number of blocks.
    pub fn len(&self) -> (r: usize)
        ensures
            r == self@.len(),
    {
        self.blocks.len()
    }

    /// Appends a block; its id is its position.
    pub fn register(&mut self, block: Block) -> (r: usize)
        requires
            old(self).wf(),
            block.wf(),
        ensures
            final(self).wf(),
            r == old(self)@.len(),
            final(self)@ == old(self)@.push(block.widget_view()),
    {
        let id = self.blocks.len();
        self.blocks.push(block);
        proof {
            assert(self@ =~= old(self)@.push(block.widget_view()));
        }
        id
    }

    /// Runs one update cycle of block `id` on a fresh listing and its lookups.
    /// Only that block's widget changes. `None` for an unknown id.
    pub fn update_block(&mut self, id: usize, updates: &str, policies: &Vec<String>) -> (r: Option<
        Result<UpdatePolicy, UpdateError>,
    >)
        requires
            old(self).wf(),
        ensures
            final(self).wf(),
            final(self)@.len() == old(self)@.len(),
            forall|k: int| 0 <= k < old(self)@.len() && k != id ==> #[trigger] final(self)@[k] == old(self)@[k],
            id >= old(self)@.len() <==> r is None,
            id >= old(self)@.len() ==> final(self)@ == old(self)@,
            forall|k: int| 0 <= k < old(self)@.len() && k != id ==> #[trigger] final(self).block_at(k) == old(self).block_at(k),
            id < old(self)@.len() ==> final(self)@[id as int] == final(self).block_at(id as int).widget_view(),
            id < old(self)@.len() ==> match old(self).block_at(id as int) {
                Block::Apt(a) => {
                    &&& final(self).block_at(id as int) matches Block::Apt(a2)
                    &&& r matches Some(res)
                    &&& update_outcome(a@, a2@, updates@, policies@, res)
                },
                Block::Label(_) => {
                    &&& r == Some(Ok::<UpdatePolicy, UpdateError>(UpdatePolicy::Dormant))
                    &&& final(self).block_at(id as int) == old(self).block_at(id as int)
                    &&& final(self)@ == old(self)@
                },
            },
    {
        if id >= self.blocks.len() {
            return None;
        }
        let ghost before = self.blocks@;
        let mut b = self.blocks.remove(id);
        assert(before[id as int].wf());
        let r = match &mut b {
            Block::Apt(a) => a.update(updates, policies),
            Block::Label(_) => Ok(UpdatePolicy::Dormant),
        };
        self.blocks.insert(id, b);
        proof {
            assert(self.blocks@ =~= before.update(id as int, b));
            if before[id as int] is Label {
                assert(self@ =~= old(self)@);
            }
            assert forall|k: int| 0 <= k < self.blocks@.len() implies (#[trigger] self.blocks@[k]).wf() by {
                if k != id {
                    assert(self.blocks@[k] == before[k]);
                }
            }
            assert forall|k: int| 0 <= k < old(self)@.len() && k != id implies #[trigger] self@[k] == old(self)@[k] by {
                assert(self.blocks@[k] == before[k]);
            }
        }
        Some(r)
    }

    /// Routes a click: the id of the block to refresh at once, when the event
    /// names a registered block whose handler asks for it; `None` otherwise,
    /// in particular for an unknown id. No widget changes.
    pub fn route_click(&self, event: &ClickEvent) -> (r: Option<usize>)
        ensures
            event.id >= self@.len() ==> r is None,
            r matches Some(id) ==> id == event.id && id < self@.len(),
            r is Some <==> (event.id < self@.len() && event.button == MouseButton::Left
                && self.refreshes_on_left_click(event.id as int)),
    {
        if event.id >= self.blocks.len() {
            return None;
        }
        match &self.blocks[event.id] {
            Block::Apt(a) => {
                if a.click(event) {
                    Some(event.id)
                } else {
                    None
                }
            },
            Block::Label(_) => None,
        }
    }

    /// One output frame from the cached records, in registration order; nothing
    /// is recomputed.
    pub fn render_frame(&self) -> (r: String)
        requires
            self.wf(),
        ensures
            r@ == frame_of(self@),
    {
        let mut out: Vec<char> = Vec::new();
        push_str(&mut out, "[");
        let mut i: usize = 0;
        while i < self.blocks.len()
            invariant
                self.wf(),
                0 <= i <= self.blocks@.len(),
                self@.len() == self.blocks@.len(),
                out@ == "["@ + joined(self@, i as int),
            decreases self.blocks@.len() - i,
        {
            assert(self.blocks@[i as int].wf());
            assert(self@[i as int] == self.blocks@[i as int].widget_view());
            if i > 0 {
                push_str(&mut out, ",");
            }
            let w = self.blocks[i].widget();
            push_str(&mut out, w.cached().as_str());
            proof {
                if i == 0 {
                    assert(out@ =~= "["@ + joined(self@, 1));
                } else {
                    assert(out@ =~= "["@ + joined(self@, i + 1));
                }
            }
            i = i + 1;
        }
        push_str(&mut out, "]");
        from_chars(&out)
    }
}

/// Records sit in registration order: a change to the widget of the block at
/// `id` leaves every record of the blocks registered before it, and the commas
/// between them, exactly as they were.
pub proof fn frame_follows_registration(ws: Seq<WidgetView>, id: int, w: WidgetView, n: int)
    requires
        0 <= id < ws.len(),
        0 <= n <= ws.len(),
        n <= id,
    ensures
        joined(ws.update(id, w), n) == joined(ws, n),
    decreases n,
{
    if n > 1 {
        frame_follows_registration(ws, id, w, n - 1);
    }
}

} // verus!
