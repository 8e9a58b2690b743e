//! Window state of the iOS backend and its sprite atlas.

use vstd::prelude::*;
use crate::platform::ios::accessibility::BoundsBits;
use std::collections::HashMap;

verus! {

/// Whether an input event should keep propagating, as reported by the input handler.
#[derive(Clone, Copy, Debug, PartialEq, Eq, Structural)]
pub struct DispatchEventResult {
    pub propagate: bool,
    pub default_prevented: bool,
}

/// The state of an iOS window: the host always presents one full-screen window.
pub struct IosWindowState<F> {
    handle: u64,
    bounds: BoundsBits,
    title: Option<String>,
    edited: bool,
    is_fullscreen: bool,
    host_metal_layer: Option<usize>,
    input_callback: Option<F>,
}

impl<F> IosWindowState<F> {
    /// The window's handle.
    pub closed spec fn handle_spec(&self) -> u64 {
        self.handle
    }

    /// The window's bounds.
    pub closed spec fn bounds_spec(&self) -> BoundsBits {
        self.bounds
    }

    /// The window title, if set.
    pub closed spec fn title_spec(&self) -> Option<Seq<char>> {
        crate::text::opt_view(self.title)
    }

    /// Whether the document is marked edited.
    pub closed spec fn edited_spec(&self) -> bool {
        self.edited
    }

    /// Whether the window is full-screen.
    pub closed spec fn fullscreen_spec(&self) -> bool {
        self.is_fullscreen
    }

    /// The host's `CAMetalLayer` pointer (opaque), if set.
    pub closed spec fn metal_layer_spec(&self) -> Option<usize> {
        self.host_metal_layer
    }

    /// The installed input callback, if any.
    pub closed spec fn input_callback_spec(&self) -> Option<F> {
        self.input_callback
    }

    /// `self` and `other` agree on everything but the metal layer.
    pub open spec fn same_but_layer(&self, other: &Self) -> bool {
        &&& self.handle_spec() == other.handle_spec()
        &&& self.bounds_spec() == other.bounds_spec()
        &&& self.title_spec() == other.title_spec()
        &&& self.edited_spec() == other.edited_spec()
        &&& self.fullscreen_spec() == other.fullscreen_spec()
        &&& self.input_callback_spec() == other.input_callback_spec()
    }

    /// A new window with the given handle and bounds: no title, not edited, not
    /// full-screen, no metal layer and no input callback.
    pub fn new(handle: u64, bounds: BoundsBits) -> (w: Self)
        ensures
            w.handle_spec() == handle,
            w.bounds_spec() == bounds,
            w.title_spec() is None,
            !w.edited_spec(),
            !w.fullscreen_spec(),
            w.metal_layer_spec() is None,
            w.input_callback_spec() is None,
    {
        IosWindowState {
            handle,
            bounds,
            title: None,
            edited: false,
            is_fullscreen: false,
            host_metal_layer: None,
            input_callback: None,
        }
    }

    /// The window's handle.
    pub fn handle(&self) -> (h: u64)
        ensures
            h == self.handle_spec(),
    {
        self.handle
    }

    /// The window's bounds.
    pub fn bounds(&self) -> (b: BoundsBits)
        ensures
            b == self.bounds_spec(),
    {
        self.bounds
    }

    /// Resize: the origin stays, the size becomes `width` x `height`.
    pub fn resize(&mut self, width: u32, height: u32)
        ensures
            final(self).bounds_spec() == (BoundsBits {
                width,
                height,
                ..old(self).bounds_spec()
            }),
            final(self).handle_spec() == old(self).handle_spec(),
            final(self).title_spec() == old(self).title_spec(),
            final(self).edited_spec() == old(self).edited_spec(),
            final(self).fullscreen_spec() == old(self).fullscreen_spec(),
            final(self).metal_layer_spec() == old(self).metal_layer_spec(),
            final(self).input_callback_spec() == old(self).input_callback_spec(),
    {
        self.bounds.width = width;
        self.bounds.height = height;
    }

    /// Set the window title.
    pub fn set_title(&mut self, title: &str)
        ensures
            final(self).title_spec() == Some(title@),
            final(self).handle_spec() == old(self).handle_spec(),
            final(self).bounds_spec() == old(self).bounds_spec(),
            final(self).edited_spec() == old(self).edited_spec(),
            final(self).fullscreen_spec() == old(self).fullscreen_spec(),
            final(self).metal_layer_spec() == old(self).metal_layer_spec(),
            final(self).input_callback_spec() == old(self).input_callback_spec(),
    {
        self.title = Some(title.to_owned());
    }

    /// The window title, if set.
    pub fn title(&self) -> (t: Option<String>)
        ensures
            crate::text::opt_view(t) == self.title_spec(),
    {
        match &self.title {
            Some(t) => Some(t.clone()),
            None => None,
        }
    }

    /// Mark the document edited or not.
    pub fn set_edited(&mut self, edited: bool)
        ensures
            final(self).edited_spec() == edited,
            final(self).handle_spec() == old(self).handle_spec(),
            final(self).bounds_spec() == old(self).bounds_spec(),
            final(self).title_spec() == old(self).title_spec(),
            final(self).fullscreen_spec() == old(self).fullscreen_spec(),
            final(self).metal_layer_spec() == old(self).metal_layer_spec(),
            final(self).input_callback_spec() == old(self).input_callback_spec(),
    {
        self.edited = edited;
    }

    /// Whether the document is marked edited.
    pub fn is_edited(&self) -> (b: bool)
        ensures
            b == self.edited_spec(),
    {
        self.edited
    }

    /// Flip full-screen mode.
    pub fn toggle_fullscreen(&mut self)
        ensures
            final(self).fullscreen_spec() == !old(self).fullscreen_spec(),
            final(self).handle_spec() == old(self).handle_spec(),
            final(self).bounds_spec() == old(self).bounds_spec(),
            final(self).title_spec() == old(self).title_spec(),
            final(self).edited_spec() == old(self).edited_spec(),
            final(self).metal_layer_spec() == old(self).metal_layer_spec(),
            final(self).input_callback_spec() == old(self).input_callback_spec(),
    {
        self.is_fullscreen = !self.is_fullscreen;
    }

    /// Whether the window is full-screen.
    pub fn is_fullscreen(&self) -> (b: bool)
        ensures
            b == self.fullscreen_spec(),
    {
        self.is_fullscreen
    }

    /// Store an opaque pointer to the host view's `CAMetalLayer` for Metal presentation.
    pub fn set_host_metal_layer_ptr(&mut self, ptr: usize)
        ensures
            final(self).metal_layer_spec() == Some(ptr),
            final(self).same_but_layer(old(self)),
    {
        self.host_metal_layer = Some(ptr);
    }

    /// The host's `CAMetalLayer` pointer, if set.
    pub fn host_metal_layer(&self) -> (p: Option<usize>)
        ensures
            p == self.metal_layer_spec(),
    {
        self.host_metal_layer
    }

    /// Install the callback that input events are handed to (replacing any earlier one).
    pub fn on_input(&mut self, callback: F)
        ensures
            final(self).input_callback_spec() == Some(callback),
            final(self).handle_spec() == old(self).handle_spec(),
            final(self).bounds_spec() == old(self).bounds_spec(),
            final(self).title_spec() == old(self).title_spec(),
            final(self).edited_spec() == old(self).edited_spec(),
            final(self).fullscreen_spec() == old(self).fullscreen_spec(),
            final(self).metal_layer_spec() == old(self).metal_layer_spec(),
    {
        self.input_callback = Some(callback);
    }

    /// Hand a host event (a `UITouch` turned into mouse input) to the input callback. Returns whether
    /// the event was handled: `false` without a callback, else whether the callback
    /// stopped its propagation.
    pub fn inject_platform_input<Ev>(&mut self, event: Ev) -> (handled: bool) where
        F: FnMut(Ev) -> DispatchEventResult,
        requires
            old(self).input_callback_spec() matches Some(cb) ==> cb.requires((event,)),
        ensures
            old(self).input_callback_spec() is None ==> !handled,
            old(self).input_callback_spec() matches Some(cb) ==> exists|r: DispatchEventResult|
                cb.ensures((event,), r) && handled == !r.propagate,
            final(self).input_callback_spec() is Some == old(self).input_callback_spec() is Some,
            final(self).handle_spec() == old(self).handle_spec(),
            final(self).bounds_spec() == old(self).bounds_spec(),
            final(self).title_spec() == old(self).title_spec(),
            final(self).edited_spec() == old(self).edited_spec(),
            final(self).fullscreen_spec() == old(self).fullscreen_spec(),
            final(self).metal_layer_spec() == old(self).metal_layer_spec(),
    {
        match &mut self.input_callback {
            Some(cb) => {
                let r = cb(event);
                !r.propagate
            },
            None => false,
        }
    }
}

/// The kind of texture a tile lives in.
#[derive(Clone, Copy, Debug, PartialEq, Eq, Structural)]
pub enum AtlasTextureKind {
    Monochrome,
    Polychrome,
}

/// A size in device pixels.
#[derive(Clone, Copy, Debug, PartialEq, Eq, Structural)]
pub struct DeviceSize {
    pub width: i32,
    pub height: i32,
}

/// A tile of the sprite atlas.
#[derive(Clone, Copy, Debug, PartialEq, Eq, Structural)]
pub struct AtlasTile {
    pub texture_index: u32,
    pub texture_kind: AtlasTextureKind,
    pub tile_id: u32,
    pub padding: u32,
    pub origin_x: i32,
    pub origin_y: i32,
    pub size: DeviceSize,
}

/// The tile the atlas creates for a sprite of `size` when its counter stands at
/// `next_id`: texture `next_id + 1`, tile `next_id + 2`, monochrome, no padding, at the
/// origin.
pub open spec fn new_tile_spec(next_id: u32, size: DeviceSize) -> AtlasTile {
    AtlasTile {
        texture_index: (next_id + 1) as u32,
        texture_kind: AtlasTextureKind::Monochrome,
        tile_id: (next_id + 2) as u32,
        padding: 0,
        origin_x: 0,
        origin_y: 0,
        size,
    }
}

/// The sprite atlas of the iOS backend: a cache of tiles by sprite key. The backend
/// presents through the host's layer, so a tile records placement only.
pub struct IosAtlas {
    next_id: u32,
    tiles: HashMap<u64, AtlasTile>,
}

impl IosAtlas {
    /// Every tile's texture id is below its tile id, which is at most the counter.
    #[verifier::type_invariant]
    closed spec fn ids_below_counter(self) -> bool {
        forall|k: u64| #[trigger]
            self.tiles@.contains_key(k) ==> self.tiles@[k].texture_index < self.tiles@[k].tile_id
                <= self.next_id
    }

    /// The cached tiles by key.
    pub closed spec fn tiles_spec(&self) -> Map<u64, AtlasTile> {
        self.tiles@
    }

    /// The id counter.
    pub closed spec fn next_id_spec(&self) -> u32 {
        self.next_id
    }

    /// An empty atlas.
    pub fn new() -> (a: Self)
        ensures
            a.tiles_spec() == Map::<u64, AtlasTile>::empty(),
            a.next_id_spec() == 0,
    {
        IosAtlas { next_id: 0, tiles: HashMap::new() }
    }

    /// The tile cached for `key`, or, when there is none, one built now: `build` is called
    /// only on a miss, and its error or "nothing to draw" is passed back with the atlas
    /// unchanged. A built sprite gets [`new_tile_spec`] and is cached under `key`.
    pub fn get_or_insert_with<E, B, F: FnOnce() -> Result<Option<(DeviceSize, B)>, E>>(
        &mut self,
        key: u64,
        build: F,
    ) -> (r: Result<Option<AtlasTile>, E>)
        requires
            old(self).tiles_spec().contains_key(key) || (build.requires(())
                && old(self).next_id_spec() <= u32::MAX - 2),
        ensures
            old(self).tiles_spec().contains_key(key) ==> {
                &&& r == Ok::<Option<AtlasTile>, E>(Some(old(self).tiles_spec()[key]))
                &&& final(self).tiles_spec() == old(self).tiles_spec()
                &&& final(self).next_id_spec() == old(self).next_id_spec()
            },
            !old(self).tiles_spec().contains_key(key) ==> exists|
                b: Result<Option<(DeviceSize, B)>, E>,
            |
                #![trigger build.ensures((), b)]
                build.ensures((), b) && match b {
                    Err(e) => {
                        &&& r == Err::<Option<AtlasTile>, E>(e)
                        &&& final(self).tiles_spec() == old(self).tiles_spec()
                        &&& final(self).next_id_spec() == old(self).next_id_spec()
                    },
                    Ok(None) => {
                        &&& r == Ok::<Option<AtlasTile>, E>(None)
                        &&& final(self).tiles_spec() == old(self).tiles_spec()
                        &&& final(self).next_id_spec() == old(self).next_id_spec()
                    },
                    Ok(Some((size, _))) => {
                        let t = new_tile_spec(old(self).next_id_spec(), size);
                        &&& r == Ok::<Option<AtlasTile>, E>(Some(t))
                        &&& final(self).tiles_spec() == old(self).tiles_spec().insert(key, t)
                        &&& final(self).next_id_spec() == old(self).next_id_spec() + 2
                        &&& t.texture_index < t.tile_id
                        &&& forall|k: u64| #[trigger]
                            old(self).tiles_spec().contains_key(k) ==> old(
                                self,
                            ).tiles_spec()[k].tile_id < t.texture_index
                    },
                },
    {
        broadcast use vstd::std_specs::hash::group_hash_axioms;

        proof {
            use_type_invariant(&*self);
        }
        match self.tiles.get(&key) {
            Some(t) => {
                return Ok(Some(*t));
            },
            None => {},
        }
        let built = build();
        match built {
            Err(e) => Err(e),
            Ok(None) => Ok(None),
            Ok(Some((size, _bytes))) => {
                let texture_index = self.next_id + 1;
                let tile_id = self.next_id + 2;
                let mut tiles: HashMap<u64, AtlasTile> = HashMap::new();
                std::mem::swap(&mut tiles, &mut self.tiles);
                self.next_id = tile_id;
                let t = AtlasTile {
                    texture_index,
                    texture_kind: AtlasTextureKind::Monochrome,
                    tile_id,
                    padding: 0,
                    origin_x: 0,
                    origin_y: 0,
                    size,
                };
                tiles.insert(key, t);
                self.tiles = tiles;
                Ok(Some(t))
            },
        }
    }

    /// Drop the tile cached for `key`, if any.
    pub fn remove(&mut self, key: u64)
        ensures
            final(self).tiles_spec() == old(self).tiles_spec().remove(key),
            final(self).next_id_spec() == old(self).next_id_spec(),
    {
        broadcast use vstd::std_specs::hash::group_hash_axioms;

        proof {
            use_type_invariant(&*self);
        }
        let mut tiles: HashMap<u64, AtlasTile> = HashMap::new();
        std::mem::swap(&mut tiles, &mut self.tiles);
        tiles.remove(&key);
        self.tiles = tiles;
    }
}

/// A new tile takes the next two ids (texture then tile), is monochrome, unpadded, at
/// the origin, and has the size that was built.
pub proof fn lemma_new_tile_fields(next_id: u32, size: DeviceSize)
    requires
        next_id <= u32::MAX - 2,
    ensures
        new_tile_spec(next_id, size).texture_index == next_id + 1,
        new_tile_spec(next_id, size).tile_id == next_id + 2,
        new_tile_spec(next_id, size).texture_kind == AtlasTextureKind::Monochrome,
        new_tile_spec(next_id, size).padding == 0,
        new_tile_spec(next_id, size).origin_x == 0,
        new_tile_spec(next_id, size).origin_y == 0,
        new_tile_spec(next_id, size).size == size,
{
}

} // verus!
