//! The camera feed controller: at most one open capture session, a displayed
//! image that always stays valid, and a cached activity flag that never
//! disagrees with handle presence.
//!
//! The controller is generic in `H`, the platform's capture handle, and `I`,
//! the opaque image handle the display layer draws. Opening a session and
//! polling it for a frame are platform work; the caller hands them in as
//! closures, and every contract here holds for every outcome those closures
//! can produce. Releasing a session is dropping its handle: no explicit close
//! call exists, so overwriting the `Option` field is the release itself.

use vstd::prelude::*;

use crate::events::{CameraControlEvent, FeedEvent};

verus! {

/// The abstract state of a camera feed controller: what every contract in
/// this crate speaks about.
pub struct FeedState<H, I> {
    /// The open capture session, if any. The controller owns it exclusively,
    /// so at most one session opened through the controller is ever live.
    pub capture_handle: Option<H>,
    /// The image the display layer shows every render pass. Always valid:
    /// the blank placeholder until a first frame arrives, afterwards the
    /// newest frame a tick has delivered.
    pub displayed_image: I,
    /// The mode the last start attempt requested: true means unprocessed.
    /// Meaningful while a handle is present; retained across stop so the
    /// last-used mode stays inspectable.
    pub requested_unprocessed: bool,
    /// The cached "a session is open" flag that `is_active` reads.
    pub active: bool,
}

impl<H, I> FeedState<H, I> {
    /// Well-formedness: the cached activity flag agrees with handle presence.
    /// Constructors establish it and every operation preserves it, so no
    /// caller ever observes the two apart.
    pub open spec fn wf(self) -> bool {
        self.active == self.capture_handle.is_some()
    }

    /// How `stop_camera` changes the state: the handle is released, the
    /// activity flag cleared, and everything else — in particular the
    /// displayed image — left alone.
    pub open spec fn stop_step(pre: Self, post: Self) -> bool {
        &&& post.capture_handle is None
        &&& !post.active
        &&& post.displayed_image == pre.displayed_image
        &&& post.requested_unprocessed == pre.requested_unprocessed
    }

    /// How `start_camera` changes the state when the open attempt came back
    /// as `opened`: the controller holds exactly that outcome (the previous
    /// handle is gone), is active iff the open succeeded, records the
    /// requested mode whether or not the open succeeded, and keeps the
    /// displayed image.
    pub open spec fn start_step(pre: Self, post: Self, unprocessed: bool, opened: Option<H>) -> bool {
        &&& post.capture_handle == opened
        &&& post.active == opened.is_some()
        &&& post.requested_unprocessed == unprocessed
        &&& post.displayed_image == pre.displayed_image
    }

    /// How a tick changes the state of a controller that holds a handle,
    /// when the poll gave the handle back as `handle_back` together with
    /// `frame`: a new frame replaces the displayed image, no frame leaves it
    /// unchanged, and nothing else moves.
    pub open spec fn tick_step(pre: Self, post: Self, handle_back: H, frame: Option<I>) -> bool {
        &&& pre.capture_handle is Some
        &&& post.capture_handle == Some(handle_back)
        &&& post.active == pre.active
        &&& post.requested_unprocessed == pre.requested_unprocessed
        &&& post.displayed_image == (match frame {
            Some(f) => f,
            None => pre.displayed_image,
        })
    }
}

/// The camera feed controller. See [`FeedState`] for the meaning of the
/// state it carries.
#[derive(Debug)]
pub struct CameraFeed<H, I> {
    capture_handle: Option<H>,
    displayed_image: I,
    requested_unprocessed: bool,
    active: bool,
}

impl<H, I> View for CameraFeed<H, I> {
    type V = FeedState<H, I>;

    closed spec fn view(&self) -> FeedState<H, I> {
        FeedState {
            capture_handle: self.capture_handle,
            displayed_image: self.displayed_image,
            requested_unprocessed: self.requested_unprocessed,
            active: self.active,
        }
    }
}

impl<H, I> CameraFeed<H, I> {
    /// Builds the controller and immediately attempts an unprocessed-mode
    /// open, exactly as a start command would. Construction itself never
    /// fails: if the platform denies the camera, the controller simply
    /// starts inactive with the placeholder displayed.
    pub fn new<F: FnOnce(bool) -> Option<H>>(placeholder: I, open_capture: F) -> (feed: Self)
        requires
            call_requires(open_capture, (true,)),
        ensures
            feed@.wf(),
            call_ensures(open_capture, (true,), feed@.capture_handle),
            feed@.displayed_image == placeholder,
            feed@.requested_unprocessed == true,
            feed@.active == feed@.capture_handle.is_some(),
    {
        let mut feed = CameraFeed {
            capture_handle: None,
            displayed_image: placeholder,
            requested_unprocessed: true,
            active: false,
        };
        feed.start_camera(true, open_capture);
        feed
    }

    /// Restarts the capture session in the given mode: any session that is
    /// still open is released first, and only then is `open_capture` asked
    /// for a new one, so two sessions opened through this controller are
    /// never live at once. The requested mode is recorded whether or not the
    /// open succeeds; the displayed image is left alone.
    pub fn start_camera<F: FnOnce(bool) -> Option<H>>(&mut self, unprocessed: bool, open_capture: F)
        requires
            call_requires(open_capture, (unprocessed,)),
        ensures
            final(self)@.wf(),
            call_ensures(open_capture, (unprocessed,), final(self)@.capture_handle),
            FeedState::start_step(old(self)@, final(self)@, unprocessed, final(self)@.capture_handle),
    {
        self.requested_unprocessed = unprocessed;
        self.capture_handle = None;
        self.active = false;
        let opened = open_capture(unprocessed);
        self.active = opened.is_some();
        self.capture_handle = opened;
    }

    /// Releases the capture session if one is open; a no-op on an inactive
    /// controller. The displayed image is left alone, deliberately: the last
    /// frame stays visible after a stop, where reverting to the placeholder
    /// would make the feed area flicker.
    pub fn stop_camera(&mut self)
        ensures
            final(self)@.wf(),
            FeedState::stop_step(old(self)@, final(self)@),
    {
        self.capture_handle = None;
        self.active = false;
    }

    /// Whether a capture session is currently open: a pure read of the
    /// cached flag, which well-formedness pins to handle presence.
    pub fn is_active(&self) -> (active: bool)
        ensures
            active == self@.active,
            self@.wf() ==> active == self@.capture_handle.is_some(),
    {
        self.active
    }

    /// The image the display layer should draw this render pass.
    pub fn displayed_image(&self) -> (image: &I)
        ensures
            *image == self@.displayed_image,
    {
        &self.displayed_image
    }

    /// The mode the last start attempt requested: true means unprocessed.
    pub fn requested_unprocessed(&self) -> (unprocessed: bool)
        ensures
            unprocessed == self@.requested_unprocessed,
    {
        self.requested_unprocessed
    }

    /// Per-render-frame refresh. If no session is open, nothing happens and
    /// `poll_frame` is never consulted. Otherwise the handle is lent to
    /// `poll_frame`, which gives it back together with the newest decoded
    /// frame, or with nothing if no new frame is ready this tick — in which
    /// case the displayed image stays as it was. Latest frame wins; nothing
    /// is buffered and nothing blocks.
    pub fn tick<F: FnOnce(H) -> (H, Option<I>)>(&mut self, poll_frame: F)
        requires
            old(self)@.capture_handle matches Some(h) ==> call_requires(poll_frame, (h,)),
        ensures
            old(self)@.capture_handle is None ==> final(self)@ == old(self)@,
            old(self)@.capture_handle matches Some(h) ==> exists|handle_back: H, frame: Option<I>|
                #[trigger] call_ensures(poll_frame, (h,), (handle_back, frame))
                && FeedState::tick_step(old(self)@, final(self)@, handle_back, frame),
            old(self)@.wf() ==> final(self)@.wf(),
    {
        let mut slot: Option<H> = None;
        core::mem::swap(&mut self.capture_handle, &mut slot);
        match slot {
            Some(handle) => {
                let (handle_back, frame) = poll_frame(handle);
                self.capture_handle = Some(handle_back);
                match frame {
                    Some(image) => {
                        self.displayed_image = image;
                    },
                    None => {},
                }
            },
            None => {},
        }
    }

    /// The controller's place in the display tree's dispatch: a tick drives
    /// frame refresh, the three control commands map one-to-one onto
    /// `start_camera` and `stop_camera`, and every other event passes
    /// through with the state untouched. Always reports the event as
    /// handled, as every node in the tree does.
    pub fn on_event<FOpen, FPoll>(
        &mut self,
        event: FeedEvent,
        open_capture: FOpen,
        poll_frame: FPoll,
    ) -> (handled: bool) where
        FOpen: FnOnce(bool) -> Option<H>,
        FPoll: FnOnce(H) -> (H, Option<I>),

        requires
            event matches FeedEvent::Control(c) ==> (c.is_start() ==> call_requires(
                open_capture,
                (c.unprocessed_flag(),),
            )),
            event is Tick ==> (old(self)@.capture_handle matches Some(h) ==> call_requires(
                poll_frame,
                (h,),
            )),
        ensures
            handled,
            old(self)@.wf() ==> final(self)@.wf(),
            match event {
                FeedEvent::Tick => {
                    &&& old(self)@.capture_handle is None ==> final(self)@ == old(self)@
                    &&& old(self)@.capture_handle matches Some(h) ==> exists|
                        handle_back: H,
                        frame: Option<I>,
                    |
                        #[trigger] call_ensures(poll_frame, (h,), (handle_back, frame))
                            && FeedState::tick_step(old(self)@, final(self)@, handle_back, frame)
                },
                FeedEvent::Control(c) => {
                    &&& c.is_start() ==> call_ensures(
                        open_capture,
                        (c.unprocessed_flag(),),
                        final(self)@.capture_handle,
                    ) && FeedState::start_step(
                        old(self)@,
                        final(self)@,
                        c.unprocessed_flag(),
                        final(self)@.capture_handle,
                    )
                    &&& c is Stop ==> FeedState::stop_step(old(self)@, final(self)@)
                },
                FeedEvent::Other => final(self)@ == old(self)@,
            },
    {
        match event {
            FeedEvent::Tick => {
                self.tick(poll_frame);
            },
            FeedEvent::Control(CameraControlEvent::StartProcessed) => {
                self.start_camera(false, open_capture);
            },
            FeedEvent::Control(CameraControlEvent::StartUnprocessed) => {
                self.start_camera(true, open_capture);
            },
            FeedEvent::Control(CameraControlEvent::Stop) => {
                self.stop_camera();
            },
            FeedEvent::Other => {},
        }
        true
    }
}

} // verus!
