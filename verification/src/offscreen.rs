//! Offscreen rendering: layer identifiers, errors, and the stack of nested
//! layers being drawn. The textures, scenes and GPU work of each layer are
//! the caller's; the context decides what may be pushed and popped.

use vstd::prelude::*;
use crate::filter::{filter_error_text, FilterError};
use vstd::string::StringExecFns;

verus! {

/// Identifier of an offscreen layer.
#[derive(Debug, Clone, Copy, PartialEq, Eq, Hash, Structural)]
pub struct LayerId(pub u32);

impl LayerId {
    /// The identifier after this one.
    pub fn next(&self) -> (r: Self)
        requires
            self.0 < u32::MAX,
        ensures
            r.0 == self.0 + 1,
    {
        LayerId(self.0 + 1)
    }
}

/// Offscreen rendering errors.
#[derive(Debug, Clone)]
pub enum OffscreenError {
    /// Texture pool exhausted.
    PoolExhausted,
    /// Device not initialized.
    DeviceNotInitialized,
    /// Filter error.
    FilterError(FilterError),
    /// Invalid layer operation.
    InvalidLayerOperation(String),
    /// Memory budget exceeded.
    MemoryBudgetExceeded,
}

/// The message of an offscreen error.
pub open spec fn offscreen_error_text(e: OffscreenError) -> Seq<char> {
    match e {
        OffscreenError::PoolExhausted => "Texture pool exhausted"@,
        OffscreenError::DeviceNotInitialized => "Device not initialized"@,
        OffscreenError::FilterError(f) => "Filter error: "@ + filter_error_text(f),
        OffscreenError::InvalidLayerOperation(m) => "Invalid layer operation: "@ + m@,
        OffscreenError::MemoryBudgetExceeded => "Memory budget exceeded"@,
    }
}

impl OffscreenError {
    /// The human-readable message of the error.
    pub fn message(&self) -> (r: String)
        ensures
            r@ == offscreen_error_text(*self),
    {
        let mut s = String::new();
        match self {
            OffscreenError::PoolExhausted => s.append("Texture pool exhausted"),
            OffscreenError::DeviceNotInitialized => s.append("Device not initialized"),
            OffscreenError::FilterError(f) => {
                s.append("Filter error: ");
                let inner = f.message();
                s.append(inner.as_str());
            },
            OffscreenError::InvalidLayerOperation(m) => {
                s.append("Invalid layer operation: ");
                s.append(m.as_str());
            },
            OffscreenError::MemoryBudgetExceeded => s.append("Memory budget exceeded"),
        }
        s
    }

    /// The offscreen error that wraps a filter error.
    pub fn from_filter(e: FilterError) -> (r: Self)
        ensures
            r == OffscreenError::FilterError(e),
    {
        OffscreenError::FilterError(e)
    }
}

/// A layer on the stack: its identifier, what the caller keeps for it, and
/// whether anything has been drawn into it.
pub struct StackedLayer<L> {
    pub id: LayerId,
    pub layer: L,
    pub has_content: bool,
}

/// The stack of nested offscreen layers, with the identifier the next layer
/// gets and whether the device and texture pool are ready.
pub struct OffscreenContext<L> {
    layer_stack: Vec<StackedLayer<L>>,
    next_layer_id: LayerId,
    initialized: bool,
    /// The size of the screen the layers are drawn for.
    pub screen_size: (u32, u32),
    memory_limit_mb: Option<usize>,
}

impl<L> OffscreenContext<L> {
    /// The stacked layers, bottom first.
    pub closed spec fn spec_stack(&self) -> Seq<StackedLayer<L>> {
        self.layer_stack@
    }

    /// The identifier the next pushed layer gets.
    pub closed spec fn spec_next_id(&self) -> u32 {
        self.next_layer_id.0
    }

    /// The device and texture pool are ready.
    pub closed spec fn spec_initialized(&self) -> bool {
        self.initialized
    }

    /// The size of the screen the layers are drawn for.
    pub closed spec fn spec_screen_size(&self) -> (u32, u32) {
        self.screen_size
    }

    /// The memory limit the texture pool was made with, if one was given.
    pub closed spec fn spec_memory_limit_mb(&self) -> Option<usize> {
        self.memory_limit_mb
    }

    /// An empty context for a `screen_width` x `screen_height` screen, not
    /// yet initialized; the first layer gets identifier 0.
    pub fn new(screen_width: u32, screen_height: u32) -> (r: Self)
        ensures
            r.spec_stack() == Seq::<StackedLayer<L>>::empty(),
            r.spec_next_id() == 0,
            !r.spec_initialized(),
            r.spec_screen_size() == (screen_width, screen_height),
            r.spec_memory_limit_mb() is None,
    {
        OffscreenContext {
            layer_stack: Vec::new(),
            next_layer_id: LayerId(0),
            initialized: false,
            screen_size: (screen_width, screen_height),
            memory_limit_mb: None,
        }
    }

    /// As `new`, with a memory limit for the texture pool.
    pub fn new_with_memory_limit(screen_width: u32, screen_height: u32, memory_limit_mb: usize) -> (r:
        Self)
        ensures
            r.spec_stack() == Seq::<StackedLayer<L>>::empty(),
            r.spec_next_id() == 0,
            !r.spec_initialized(),
            r.spec_screen_size() == (screen_width, screen_height),
            r.spec_memory_limit_mb() == Some(memory_limit_mb),
    {
        OffscreenContext {
            layer_stack: Vec::new(),
            next_layer_id: LayerId(0),
            initialized: false,
            screen_size: (screen_width, screen_height),
            memory_limit_mb: Some(memory_limit_mb),
        }
    }

    /// Records that the device and the texture pool are ready.
    pub fn set_initialized(&mut self)
        ensures
            final(self).spec_initialized(),
            final(self).spec_stack() == old(self).spec_stack(),
            final(self).spec_next_id() == old(self).spec_next_id(),
            final(self).spec_screen_size() == old(self).spec_screen_size(),
            final(self).spec_memory_limit_mb() == old(self).spec_memory_limit_mb(),
    {
        self.initialized = true;
    }

    /// Whether the device and the texture pool are ready.
    pub fn is_initialized(&self) -> (r: bool)
        ensures
            r == self.spec_initialized(),
    {
        self.initialized
    }

    /// Pushes a layer built by `make` from the next identifier. An
    /// uninitialized context refuses; when `make` cannot get the layer a
    /// texture (`None`), the pool is exhausted and the identifier stays
    /// unused.
    pub fn push_layer<F>(&mut self, make: F) -> (r: Result<LayerId, OffscreenError>)
        where
            F: FnOnce(LayerId) -> Option<L>,
        requires
            old(self).spec_next_id() < u32::MAX,
            call_requires(make, (LayerId(old(self).spec_next_id()),)),
        ensures
            final(self).spec_initialized() == old(self).spec_initialized(),
            final(self).spec_screen_size() == old(self).spec_screen_size(),
            final(self).spec_memory_limit_mb() == old(self).spec_memory_limit_mb(),
            !old(self).spec_initialized() ==> r == Err::<LayerId, OffscreenError>(
                OffscreenError::DeviceNotInitialized,
            ) && final(self).spec_stack() == old(self).spec_stack() && final(self).spec_next_id()
                == old(self).spec_next_id(),
            old(self).spec_initialized() ==> exists|made: Option<L>|
                #[trigger] call_ensures(make, (LayerId(old(self).spec_next_id()),), made) && match made {
                    None => r == Err::<LayerId, OffscreenError>(OffscreenError::PoolExhausted)
                        && final(self).spec_stack() == old(self).spec_stack()
                        && final(self).spec_next_id() == old(self).spec_next_id(),
                    Some(l) => r == Ok::<LayerId, OffscreenError>(LayerId(old(self).spec_next_id()))
                        && final(self).spec_stack() == old(self).spec_stack().push(
                        StackedLayer { id: LayerId(old(self).spec_next_id()), layer: l, has_content: false },
                    ) && final(self).spec_next_id() == old(self).spec_next_id() + 1,
                },
    {
        if !self.initialized {
            return Err(OffscreenError::DeviceNotInitialized);
        }
        let id = self.next_layer_id;
        let made = make(id);
        match made {
            None => Err(OffscreenError::PoolExhausted),
            Some(l) => {
                self.next_layer_id = id.next();
                self.layer_stack.push(StackedLayer { id, layer: l, has_content: false });
                Ok(id)
            },
        }
    }

    /// Pops the top layer and hands it back. An uninitialized context and
    /// an empty stack refuse.
    pub fn pop_layer(&mut self) -> (r: Result<StackedLayer<L>, OffscreenError>)
        ensures
            final(self).spec_initialized() == old(self).spec_initialized(),
            final(self).spec_next_id() == old(self).spec_next_id(),
            final(self).spec_screen_size() == old(self).spec_screen_size(),
            final(self).spec_memory_limit_mb() == old(self).spec_memory_limit_mb(),
            !old(self).spec_initialized() ==> (match r {
                Err(OffscreenError::DeviceNotInitialized) => true,
                _ => false,
            }) && final(self).spec_stack() == old(self).spec_stack(),
            old(self).spec_initialized() && old(self).spec_stack().len() == 0 ==> (match r {
                Err(OffscreenError::InvalidLayerOperation(m)) => m@ == "Layer stack is empty"@,
                _ => false,
            }) && final(self).spec_stack() == old(self).spec_stack(),
            old(self).spec_initialized() && old(self).spec_stack().len() > 0 ==> (match r {
                Ok(top) => top == old(self).spec_stack().last(),
                _ => false,
            }) && final(self).spec_stack() == old(self).spec_stack().drop_last(),
    {
        if !self.initialized {
            return Err(OffscreenError::DeviceNotInitialized);
        }
        match self.layer_stack.pop() {
            Some(top) => Ok(top),
            None => Err(OffscreenError::InvalidLayerOperation("Layer stack is empty".to_string())),
        }
    }

    /// Records that something was drawn into the top layer; with no layer on
    /// the stack there is nothing to draw into.
    pub fn mark_current_drawn(&mut self) -> (r: Result<(), OffscreenError>)
        ensures
            final(self).spec_initialized() == old(self).spec_initialized(),
            final(self).spec_next_id() == old(self).spec_next_id(),
            final(self).spec_screen_size() == old(self).spec_screen_size(),
            final(self).spec_memory_limit_mb() == old(self).spec_memory_limit_mb(),
            old(self).spec_stack().len() == 0 ==> (match r {
                Err(OffscreenError::InvalidLayerOperation(m)) => m@ == "No active layer to render to"@,
                _ => false,
            }) && final(self).spec_stack() == old(self).spec_stack(),
            old(self).spec_stack().len() > 0 ==> r is Ok && final(self).spec_stack().len()
                == old(self).spec_stack().len() && final(self).spec_stack().drop_last()
                == old(self).spec_stack().drop_last() && final(self).spec_stack().last().id
                == old(self).spec_stack().last().id && final(self).spec_stack().last().layer
                == old(self).spec_stack().last().layer && final(self).spec_stack().last().has_content,
    {
        match self.layer_stack.pop() {
            Some(top) => {
                let ghost before = self.layer_stack@;
                self.layer_stack.push(StackedLayer { id: top.id, layer: top.layer, has_content: true });
                assert(self.layer_stack@.drop_last() =~= before);
                Ok(())
            },
            None => Err(OffscreenError::InvalidLayerOperation("No active layer to render to".to_string())),
        }
    }

    /// Records a new screen size.
    pub fn update_screen_size(&mut self, width: u32, height: u32)
        ensures
            final(self).spec_screen_size() == (width, height),
            final(self).spec_stack() == old(self).spec_stack(),
            final(self).spec_next_id() == old(self).spec_next_id(),
            final(self).spec_initialized() == old(self).spec_initialized(),
            final(self).spec_memory_limit_mb() == old(self).spec_memory_limit_mb(),
    {
        self.screen_size = (width, height);
    }

    /// Empties the stack once it has been composited to the screen, and
    /// hands back its layers, bottom first, so that their textures can go
    /// back to the pool.
    pub fn clear_layers(&mut self) -> (r: Vec<StackedLayer<L>>)
        ensures
            r@ == old(self).spec_stack(),
            final(self).spec_stack() == Seq::<StackedLayer<L>>::empty(),
            final(self).spec_next_id() == old(self).spec_next_id(),
            final(self).spec_initialized() == old(self).spec_initialized(),
            final(self).spec_screen_size() == old(self).spec_screen_size(),
            final(self).spec_memory_limit_mb() == old(self).spec_memory_limit_mb(),
    {
        let mut taken: Vec<StackedLayer<L>> = Vec::new();
        std::mem::swap(&mut taken, &mut self.layer_stack);
        taken
    }

    /// The identifier of the top layer, if any.
    pub fn current_layer(&self) -> (r: Option<LayerId>)
        ensures
            r == (if self.spec_stack().len() == 0 {
                None
            } else {
                Some(self.spec_stack().last().id)
            }),
    {
        let n = self.layer_stack.len();
        if n == 0 {
            None
        } else {
            Some(self.layer_stack[n - 1].id)
        }
    }

    /// The number of layers on the stack.
    pub fn stack_depth(&self) -> (r: usize)
        ensures
            r == self.spec_stack().len(),
    {
        self.layer_stack.len()
    }

    /// The layer with identifier `id`, if it is on the stack.
    pub fn get_layer(&self, id: LayerId) -> (r: Option<&StackedLayer<L>>)
        ensures
            r is None <==> forall|i: int| 0 <= i < self.spec_stack().len() ==> (#[trigger] self.spec_stack()[i]).id != id,
            r is Some ==> exists|i: int| 0 <= i < self.spec_stack().len() && *r.unwrap() == #[trigger] self.spec_stack()[i] && self.spec_stack()[i].id == id,
    {
        let mut i: usize = 0;
        while i < self.layer_stack.len()
            invariant
                i <= self.layer_stack@.len(),
                forall|k: int| 0 <= k < i ==> (#[trigger] self.layer_stack@[k]).id != id,
            decreases self.layer_stack@.len() - i,
        {
            if self.layer_stack[i].id.0 == id.0 {
                assert(self.spec_stack()[i as int].id == id);
                return Some(&self.layer_stack[i]);
            }
            i = i + 1;
        }
        None
    }
}

} // verus!
