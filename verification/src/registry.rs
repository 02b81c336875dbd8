//! The registry of windows that the owning thread keeps.

use vstd::prelude::*;
use crate::error::{CreateWindowError, InvalidWindowIdError};
use crate::window::{Image, ImageView, WindowId, WindowOptions};

verus! {

/// One registered window as plain values.
pub struct WindowView {
    pub id: WindowId,
    pub title: Seq<char>,
    pub options: WindowOptions,
    pub visible: bool,
    /// The name and the pixels of the image on show, if any.
    pub image: Option<(Seq<char>, ImageView)>,
}

/// The registry as plain values: the windows in the order of their creation
/// and the next identifier to hand out.
pub struct RegistryView {
    pub windows: Seq<WindowView>,
    pub next_id: u64,
}

impl RegistryView {
    /// Every identifier in use was handed out already, and none is in use
    /// twice.
    pub open spec fn wf(self) -> bool {
        &&& forall|i: int|
            0 <= i < self.windows.len() ==> (#[trigger] self.windows[i]).id.0 < self.next_id
        &&& forall|i: int, j: int|
            0 <= i < j < self.windows.len() ==> (#[trigger] self.windows[i]).id != (
            #[trigger] self.windows[j]).id
    }

    /// Whether a window `id` is registered.
    pub open spec fn has_window(self, id: WindowId) -> bool {
        exists|i: int| 0 <= i < self.windows.len() && (#[trigger] self.windows[i]).id == id
    }

    /// Where the window `id` stands among the windows, if it is registered.
    pub open spec fn position(self, id: WindowId) -> int {
        choose|i: int| 0 <= i < self.windows.len() && (#[trigger] self.windows[i]).id == id
    }

    /// The window `id`, if it is registered.
    pub open spec fn window(self, id: WindowId) -> WindowView {
        self.windows[self.position(id)]
    }

    /// The registry with the window `id` replaced by `window`.
    pub open spec fn with_window(self, id: WindowId, window: WindowView) -> RegistryView {
        RegistryView { windows: self.windows.update(self.position(id), window), ..self }
    }

    /// The registry after a request for a new window, and the answer: the
    /// window gets the next identifier and stands last; it fails only when
    /// the identifiers have run out.
    pub open spec fn create_window(self, title: Seq<char>, options: WindowOptions) -> (
        RegistryView,
        Result<WindowId, CreateWindowError>,
    ) {
        if self.next_id == u64::MAX {
            (self, Err(CreateWindowError::IdentifiersExhausted))
        } else {
            let id = WindowId(self.next_id);
            let window = WindowView {
                id,
                title,
                options,
                visible: !options.start_hidden,
                image: None,
            };
            (
                RegistryView {
                    windows: self.windows.push(window),
                    next_id: (self.next_id + 1) as u64,
                    ..self
                },
                Ok(id),
            )
        }
    }

    /// The registry after a request to destroy the window `id`, and the
    /// answer: the window leaves, the others keep their order.
    pub open spec fn destroy_window(self, id: WindowId) -> (
        RegistryView,
        Result<(), InvalidWindowIdError>,
    ) {
        if self.has_window(id) {
            (RegistryView { windows: self.windows.remove(self.position(id)), ..self }, Ok(()))
        } else {
            (self, Err(InvalidWindowIdError { window_id: id }))
        }
    }

    /// The registry after a request to show or hide the window `id`, and
    /// the answer.
    pub open spec fn set_window_visible(self, id: WindowId, visible: bool) -> (
        RegistryView,
        Result<(), InvalidWindowIdError>,
    ) {
        if self.has_window(id) {
            (self.with_window(id, WindowView { visible, ..self.window(id) }), Ok(()))
        } else {
            (self, Err(InvalidWindowIdError { window_id: id }))
        }
    }

    /// The registry after a request to show `image` in the window `id`
    /// under `name`, and the answer.
    pub open spec fn set_window_image(self, id: WindowId, name: Seq<char>, image: ImageView) -> (
        RegistryView,
        Result<(), InvalidWindowIdError>,
    ) {
        if self.has_window(id) {
            (
                self.with_window(id, WindowView { image: Some((name, image)), ..self.window(id) }),
                Ok(()),
            )
        } else {
            (self, Err(InvalidWindowIdError { window_id: id }))
        }
    }
}

/// Creating a window registers it under an identifier that was not in use.
pub proof fn lemma_create_window_registers(
    before: RegistryView,
    title: Seq<char>,
    options: WindowOptions,
)
    requires
        before.wf(),
        before.next_id < u64::MAX,
    ensures
        ({
            let (after, r) = before.create_window(title, options);
            let id = WindowId(before.next_id);
            &&& r == Ok::<WindowId, CreateWindowError>(id)
            &&& after.wf()
            &&& !before.has_window(id)
            &&& after.has_window(id)
            &&& after.window(id).title == title
            &&& after.window(id).options == options
            &&& after.window(id).visible == !options.start_hidden
            &&& after.window(id).image is None
            &&& forall|other: WindowId| before.has_window(other) ==> after.has_window(other)
        }),
{
    let (after, r) = before.create_window(title, options);
    let id = WindowId(before.next_id);
    let last = before.windows.len() as int;
    assert(after.windows[last].id == id);
    assert(after.wf());
    assert(after.position(id) == last);
    assert forall|other: WindowId| before.has_window(other) implies after.has_window(other) by {
        let i = before.position(other);
        assert(after.windows[i].id == other);
    }
}

/// Destroying a window succeeds exactly when it is registered, and leaves
/// it unregistered: destroying it once more fails and changes nothing.
pub proof fn lemma_destroy_window_once(before: RegistryView, id: WindowId)
    requires
        before.wf(),
    ensures
        ({
            let (after, r) = before.destroy_window(id);
            &&& r is Ok <==> before.has_window(id)
            &&& after.wf()
            &&& !after.has_window(id)
            &&& after.destroy_window(id) == (
                after,
                Err::<(), InvalidWindowIdError>(InvalidWindowIdError { window_id: id }),
            )
            &&& forall|other: WindowId|
                other != id ==> (after.has_window(other) <==> before.has_window(other))
        }),
{
    let (after, r) = before.destroy_window(id);
    if before.has_window(id) {
        let p = before.position(id);
        assert forall|k: int| 0 <= k < after.windows.len() implies (#[trigger] after.windows[k])
            == before.windows[if k < p { k } else { k + 1 }] by {}
        assert(after.wf());
        assert forall|other: WindowId| other != id && before.has_window(other) implies after.has_window(other) by {
            let i = before.position(other);
            if i < p {
                assert(after.windows[i].id == other);
            } else {
                assert(after.windows[i - 1].id == other);
            }
        }
    }
}

/// Showing, hiding or painting a window succeeds exactly when it is
/// registered, and changes nothing but that window.
pub proof fn lemma_update_window(before: RegistryView, id: WindowId, window: WindowView)
    requires
        before.wf(),
        before.has_window(id),
        window.id == id,
    ensures
        ({
            let after = before.with_window(id, window);
            &&& after.wf()
            &&& after.window(id) == window
            &&& forall|other: WindowId| after.has_window(other) <==> before.has_window(other)
            &&& forall|other: WindowId|
                other != id && before.has_window(other) ==> after.window(other) == before.window(
                    other,
                )
        }),
{
    let after = before.with_window(id, window);
    let p = before.position(id);
    assert(after.windows[p].id == id);
    assert(after.wf());
    assert(after.position(id) == p);
    assert forall|other: WindowId| before.has_window(other) implies after.has_window(other) by {
        let i = before.position(other);
        assert(after.windows[i].id == other);
    }
    assert forall|other: WindowId| after.has_window(other) implies before.has_window(other) by {
        let i = after.position(other);
        assert(before.windows[i].id == other);
    }
    assert forall|other: WindowId| other != id && before.has_window(other) implies after.window(
        other,
    ) == before.window(other) by {
        let i = before.position(other);
        assert(after.windows[i].id == other);
        assert(after.position(other) == i);
    }
}

struct Window {
    id: WindowId,
    title: String,
    options: WindowOptions,
    visible: bool,
    image: Option<(String, Image)>,
}

impl Window {
    spec fn view(&self) -> WindowView {
        WindowView {
            id: self.id,
            title: self.title@,
            options: self.options,
            visible: self.visible,
            image: match self.image {
                Some((name, image)) => Some((name@, image@)),
                None => None,
            },
        }
    }
}

spec fn registry(windows: Seq<Window>, next_id: u64) -> RegistryView {
    RegistryView { windows: Seq::new(windows.len(), |i: int| windows[i].view()), next_id }
}

/// The windows of a context.
pub struct WindowRegistry {
    windows: Vec<Window>,
    next_id: u64,
}

impl WindowRegistry {
    pub closed spec fn view(&self) -> RegistryView {
        registry(self.windows@, self.next_id)
    }

    /// The registry is well formed at every moment.
    #[verifier::type_invariant]
    pub open spec fn inv(&self) -> bool {
        self@.wf()
    }

    /// An empty registry whose first window gets the identifier `first_id`.
    pub fn starting_at(first_id: u64) -> (r: Self)
        ensures
            r@ == (RegistryView { windows: Seq::empty(), next_id: first_id }),
    {
        let r = WindowRegistry { windows: Vec::new(), next_id: first_id };
        assert(r@.windows =~= Seq::empty());
        r
    }

    fn find(&self, id: WindowId) -> (r: Option<usize>)
        ensures
            self@.wf(),
            match r {
                Some(i) => self@.has_window(id) && self@.position(id) == i && i
                    < self.windows.len(),
                None => !self@.has_window(id),
            },
    {
        proof {
            use_type_invariant(self);
        }
        let mut i: usize = 0;
        while i < self.windows.len()
            invariant
                i <= self.windows.len(),
                self@.wf(),
                forall|k: int| 0 <= k < i ==> (#[trigger] self@.windows[k]).id != id,
            decreases self.windows.len() - i,
        {
            if self.windows[i].id == id {
                assert(self@.windows[i as int].id == id);
                return Some(i);
            }
            i += 1;
        }
        None
    }

    /// Whether a window `id` is registered.
    pub fn has_window(&self, id: WindowId) -> (r: bool)
        ensures
            r == self@.has_window(id),
    {
        self.find(id).is_some()
    }

    /// How many windows are registered.
    pub fn window_count(&self) -> (r: usize)
        ensures
            r == self@.windows.len(),
    {
        self.windows.len()
    }

    /// The identifiers of the registered windows, in the order of their
    /// creation.
    pub fn window_ids(&self) -> (ids: Vec<WindowId>)
        ensures
            ids@ == self@.windows.map_values(|window: WindowView| window.id),
    {
        let mut ids: Vec<WindowId> = Vec::new();
        let mut i: usize = 0;
        while i < self.windows.len()
            invariant
                i <= self.windows.len(),
                ids@.len() == i,
                forall|k: int| 0 <= k < i ==> ids@[k] == (#[trigger] self@.windows[k]).id,
            decreases self.windows.len() - i,
        {
            ids.push(self.windows[i].id);
            i += 1;
        }
        assert(ids@ =~= self@.windows.map_values(|window: WindowView| window.id));
        ids
    }

    /// The options that the window `id` was created with; `None` if there
    /// is no such window.
    pub fn window_options(&self, id: WindowId) -> (r: Option<WindowOptions>)
        ensures
            r == if self@.has_window(id) {
                Some(self@.window(id).options)
            } else {
                None
            },
    {
        match self.find(id) {
            Some(i) => Some(self.windows[i].options),
            None => None,
        }
    }

    /// Whether the window `id` is shown; `None` if there is no such window.
    pub fn is_window_visible(&self, id: WindowId) -> (r: Option<bool>)
        ensures
            r == if self@.has_window(id) {
                Some(self@.window(id).visible)
            } else {
                None
            },
    {
        match self.find(id) {
            Some(i) => Some(self.windows[i].visible),
            None => None,
        }
    }

    /// The title of the window `id`; `None` if there is no such window.
    pub fn window_title(&self, id: WindowId) -> (r: Option<&String>)
        ensures
            match r {
                Some(title) => self@.has_window(id) && title@ == self@.window(id).title,
                None => !self@.has_window(id),
            },
    {
        match self.find(id) {
            Some(i) => Some(&self.windows[i].title),
            None => None,
        }
    }

    /// The name of the image on show in the window `id`; `None` if there is
    /// no such window or it shows no image.
    pub fn window_image_name(&self, id: WindowId) -> (r: Option<&String>)
        ensures
            match r {
                Some(name) => self@.has_window(id) && self@.window(id).image is Some
                    && name@ == self@.window(id).image->Some_0.0,
                None => !self@.has_window(id) || self@.window(id).image is None,
            },
    {
        match self.find(id) {
            Some(i) => match &self.windows[i].image {
                Some(shown) => Some(&shown.0),
                None => None,
            },
            None => None,
        }
    }

    /// Registers a new window and hands out its identifier.
    pub fn create_window(&mut self, title: String, options: WindowOptions) -> (r: Result<
        WindowId,
        CreateWindowError,
    >)
        ensures
            old(self)@.wf(),
            final(self)@.wf(),
            (final(self)@, r) == old(self)@.create_window(title@, options),
    {
        proof {
            use_type_invariant(&*self);
        }
        if self.next_id == u64::MAX {
            return Err(CreateWindowError::IdentifiersExhausted);
        }
        let id = WindowId(self.next_id);
        let window = Window { id, title, options, visible: !options.start_hidden, image: None };
        let mut windows: Vec<Window> = Vec::new();
        core::mem::swap(&mut self.windows, &mut windows);
        self.next_id = self.next_id + 1;
        windows.push(window);
        proof {
            let after = registry(windows@, self.next_id);
            assert(after.windows =~= old(self)@.windows.push(window.view()));
            assert(after.wf());
        }
        self.windows = windows;
        Ok(id)
    }

    /// Removes the window `id` from the registry.
    pub fn destroy_window(&mut self, id: WindowId) -> (r: Result<(), InvalidWindowIdError>)
        ensures
            old(self)@.wf(),
            final(self)@.wf(),
            (final(self)@, r) == old(self)@.destroy_window(id),
    {
        match self.find(id) {
            Some(i) => {
                let mut windows: Vec<Window> = Vec::new();
                core::mem::swap(&mut self.windows, &mut windows);
                let _ = windows.remove(i);
                proof {
                    let after = registry(windows@, self.next_id);
                    assert(after.windows =~= old(self)@.windows.remove(i as int));
                    assert(after.wf());
                }
                self.windows = windows;
                Ok(())
            },
            None => Err(InvalidWindowIdError { window_id: id }),
        }
    }

    /// Shows or hides the window `id`.
    pub fn set_window_visible(&mut self, id: WindowId, visible: bool) -> (r: Result<
        (),
        InvalidWindowIdError,
    >)
        ensures
            old(self)@.wf(),
            final(self)@.wf(),
            (final(self)@, r) == old(self)@.set_window_visible(id, visible),
    {
        match self.find(id) {
            Some(i) => {
                let mut windows: Vec<Window> = Vec::new();
                core::mem::swap(&mut self.windows, &mut windows);
                let mut window = windows.remove(i);
                window.visible = visible;
                windows.insert(i, window);
                proof {
                    let after = registry(windows@, self.next_id);
                    assert(after.windows =~= old(self)@.windows.update(i as int, window.view()));
                    assert(after.wf());
                }
                self.windows = windows;
                Ok(())
            },
            None => Err(InvalidWindowIdError { window_id: id }),
        }
    }

    /// Puts `image` on show in the window `id`, under `name`.
    pub fn set_window_image(&mut self, id: WindowId, name: String, image: Image) -> (r: Result<
        (),
        InvalidWindowIdError,
    >)
        ensures
            old(self)@.wf(),
            final(self)@.wf(),
            (final(self)@, r) == old(self)@.set_window_image(id, name@, image@),
    {
        match self.find(id) {
            Some(i) => {
                let mut windows: Vec<Window> = Vec::new();
                core::mem::swap(&mut self.windows, &mut windows);
                let mut window = windows.remove(i);
                window.image = Some((name, image));
                windows.insert(i, window);
                proof {
                    let after = registry(windows@, self.next_id);
                    assert(after.windows =~= old(self)@.windows.update(i as int, window.view()));
                    assert(after.wf());
                }
                self.windows = windows;
                Ok(())
            },
            None => Err(InvalidWindowIdError { window_id: id }),
        }
    }
}

} // verus!
