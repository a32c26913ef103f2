use crate::device::{
    destroy_all, handle_range, make_handle_range, push_destroy_all, Command, DeviceState, Handle,
    ResourceKind,
};
use crate::error::GpuError;
use crate::format::{Format, ASPECT_COLOR};
use crate::renderer::RenderPassState;
use crate::swapchain::{Backbuffer, Extent, SwapchainState};
use vstd::prelude::*;

verus! {

/// The framebuffers of a swapchain, and for each frame in flight a slot of
/// its own: a fence, a command pool and two semaphores.
pub struct FramebufferState {
    pub(crate) first_handle: u64,
    pub(crate) framebuffers: Vec<Handle>,
    pub(crate) framebuffer_fences: Vec<Handle>,
    pub(crate) command_pools: Vec<Handle>,
    pub(crate) frame_images: Vec<(Handle, Handle)>,
    pub(crate) acquire_semaphores: Vec<Handle>,
    pub(crate) present_semaphores: Vec<Handle>,
    pub(crate) last_semaphore_index: usize,
}

/// Number of images that a backbuffer brings.
pub open spec fn image_count(backbuffer: Backbuffer) -> int {
    match backbuffer {
        Backbuffer::Images(count) => count as int,
        Backbuffer::Framebuffer => 0,
    }
}

/// Number of framebuffers that a backbuffer is drawn through.
pub open spec fn framebuffer_count(backbuffer: Backbuffer) -> int {
    match backbuffer {
        Backbuffer::Images(count) => count as int,
        Backbuffer::Framebuffer => 1,
    }
}

/// Number of frame slots for a backbuffer: one for each image, and one
/// where there are no images.
pub open spec fn slot_count(backbuffer: Backbuffer) -> int {
    if image_count(backbuffer) != 0 {
        image_count(backbuffer)
    } else {
        1
    }
}

/// Number of handles that the framebuffer state of a backbuffer takes.
pub open spec fn handles_needed(backbuffer: Option<Backbuffer>) -> int {
    match backbuffer {
        Some(b) => 2 * image_count(b) + framebuffer_count(b) + 4 * slot_count(b),
        None => 0,
    }
}

/// The images of the swapchain, each with the view that is made of it.
pub open spec fn frame_image_pairs(first: int, images: int) -> Seq<(Handle, Handle)> {
    Seq::new(
        images as nat,
        |i: int| (Handle((first + i) as u64), Handle((first + images + i) as u64)),
    )
}

/// The index that `get_next_semaphore_index` returns when the index it
/// would hand out next is `last` and there are `slots` slots.
pub open spec fn next_slot(last: int, slots: int) -> int {
    if last >= slots {
        0
    } else {
        last
    }
}

/// The index returned by call number `call` (counted from zero) in a row of
/// calls of `get_next_semaphore_index` on a new framebuffer state.
pub open spec fn nth_slot(slots: int, call: nat) -> int
    decreases call,
{
    if call == 0 {
        next_slot(0, slots)
    } else {
        next_slot(nth_slot(slots, (call - 1) as nat) + 1, slots)
    }
}

/// With `slots` slots, the calls return 0, 1, ..., `slots - 1`, 0, 1, ...
pub proof fn lemma_slot_rotation(slots: int, call: nat)
    requires
        slots >= 1,
    ensures
        nth_slot(slots, call) == call as int % slots,
    decreases call,
{
    if call == 0 {
        assert(0int % slots == 0) by (nonlinear_arith)
            requires
                slots >= 1,
        ;
    } else {
        lemma_slot_rotation(slots, (call - 1) as nat);
        let previous = (call - 1) as int;
        assert(call as int % slots == if previous % slots + 1 >= slots {
            0
        } else {
            previous % slots + 1
        }) by (nonlinear_arith)
            requires
                slots >= 1,
                previous >= 0,
                call as int == previous + 1,
        ;
    }
}

/// Creating the views and framebuffers of the images of a swapchain.
pub open spec fn image_commands(
    first: int,
    images: int,
    swapchain: Handle,
    render_pass: Handle,
    format: Format,
    extent: Extent,
) -> Seq<Command> {
    Seq::new(
        (2 * images) as nat,
        |i: int|
            if i % 2 == 0 {
                Command::AdoptSwapchainImage {
                    image: Handle((first + i / 2) as u64),
                    swapchain,
                    index: (i / 2) as u32,
                }
            } else {
                Command::CreateImageView {
                    view: Handle((first + images + i / 2) as u64),
                    image: Handle((first + i / 2) as u64),
                    format,
                    aspects: ASPECT_COLOR,
                }
            },
    ) + Seq::new(
        images as nat,
        |i: int|
            Command::CreateFramebuffer {
                framebuffer: Handle((first + 2 * images + i) as u64),
                render_pass,
                view: Handle((first + images + i) as u64),
                extent,
            },
    )
}

/// Creating the fence, command pool and semaphores of each slot. The fences
/// start signalled, so that the first wait on each returns at once.
pub open spec fn slot_commands(first: int, slots: int, family: usize) -> Seq<Command> {
    Seq::new(
        (4 * slots) as nat,
        |i: int|
            if i % 4 == 0 {
                Command::CreateFence { fence: Handle((first + i / 4) as u64), signaled: true }
            } else if i % 4 == 1 {
                Command::CreateCommandPool {
                    pool: Handle((first + slots + i / 4) as u64),
                    family,
                }
            } else if i % 4 == 2 {
                Command::CreateSemaphore { semaphore: Handle((first + 2 * slots + i / 4) as u64) }
            } else {
                Command::CreateSemaphore { semaphore: Handle((first + 3 * slots + i / 4) as u64) }
            },
    )
}

/// Everything that is created for the framebuffer state of `backbuffer`
/// when its handles start at `first`.
pub open spec fn creation_commands(
    first: int,
    backbuffer: Backbuffer,
    swapchain: Handle,
    render_pass: Handle,
    format: Format,
    extent: Extent,
    family: usize,
) -> Seq<Command> {
    let images = image_count(backbuffer);
    let head = match backbuffer {
        Backbuffer::Images(_) => image_commands(
            first,
            images,
            swapchain,
            render_pass,
            format,
            extent,
        ),
        Backbuffer::Framebuffer => seq![
            Command::AdoptSwapchainFramebuffer { framebuffer: Handle(first as u64), swapchain },
        ],
    };
    head + slot_commands(
        first + 2 * images + framebuffer_count(backbuffer),
        slot_count(backbuffer),
        family,
    )
}

/// Waiting for each fence and destroying it, one fence after the other.
pub open spec fn fence_teardown(fences: Seq<Handle>) -> Seq<Command> {
    Seq::new(
        2 * fences.len(),
        |i: int|
            if i % 2 == 0 {
                Command::WaitForFence { fence: fences[i / 2] }
            } else {
                Command::Destroy { kind: ResourceKind::Fence, handle: fences[i / 2] }
            },
    )
}

impl FramebufferState {
    pub open(crate) spec fn first_handle(&self) -> u64 {
        self.first_handle
    }

    pub open(crate) spec fn framebuffers(&self) -> Seq<Handle> {
        self.framebuffers@
    }

    pub open(crate) spec fn framebuffer_fences(&self) -> Seq<Handle> {
        self.framebuffer_fences@
    }

    pub open(crate) spec fn command_pools(&self) -> Seq<Handle> {
        self.command_pools@
    }

    pub open(crate) spec fn frame_images(&self) -> Seq<(Handle, Handle)> {
        self.frame_images@
    }

    pub open(crate) spec fn acquire_semaphores(&self) -> Seq<Handle> {
        self.acquire_semaphores@
    }

    pub open(crate) spec fn present_semaphores(&self) -> Seq<Handle> {
        self.present_semaphores@
    }

    /// The slot index that the next call of `get_next_semaphore_index`
    /// hands out, unless it has run past the last slot.
    pub open(crate) spec fn last_semaphore_index(&self) -> usize {
        self.last_semaphore_index
    }

    /// Number of frame slots.
    pub open spec fn slots(&self) -> int {
        self.framebuffer_fences().len() as int
    }

    /// The state is that of a backbuffer with this many images and
    /// framebuffers whose handles start at `first_handle`.
    #[verifier::type_invariant]
    pub open(crate) spec fn wf(&self) -> bool {
        let first = self.first_handle as int;
        let images = self.frame_images@.len() as int;
        let buffers = self.framebuffers@.len() as int;
        let slots = self.framebuffer_fences@.len() as int;
        &&& buffers == images || (images == 0 && buffers == 1)
        &&& slots == if images != 0 {
            images
        } else {
            1
        }
        &&& first + 2 * images + buffers + 4 * slots <= u64::MAX
        &&& self.frame_images@ == frame_image_pairs(first, images)
        &&& self.framebuffers@ == handle_range(first + 2 * images, buffers)
        &&& self.framebuffer_fences@ == handle_range(first + 2 * images + buffers, slots)
        &&& self.command_pools@ == handle_range(first + 2 * images + buffers + slots, slots)
        &&& self.acquire_semaphores@ == handle_range(
            first + 2 * images + buffers + 2 * slots,
            slots,
        )
        &&& self.present_semaphores@ == handle_range(
            first + 2 * images + buffers + 3 * slots,
            slots,
        )
        &&& self.last_semaphore_index <= slots
    }

    /// Names the views and framebuffers for the backbuffer of the swapchain,
    /// and for each frame slot a fence, a command pool and two semaphores.
    /// The backbuffer is taken out of `swapchain_state`.
    pub fn new(
        device: &mut DeviceState,
        render_pass_state: &RenderPassState,
        swapchain_state: &mut SwapchainState,
    ) -> (r: Result<(FramebufferState, Vec<Command>), GpuError>)
        requires
            old(device).has_room(handles_needed(old(swapchain_state).backbuffer())),
        ensures
            final(device).queue_family() == old(device).queue_family(),
            final(device).next_handle() == old(device).next_handle() + handles_needed(
                old(swapchain_state).backbuffer(),
            ),
            final(swapchain_state).backbuffer() is None,
            final(swapchain_state).swapchain() == old(swapchain_state).swapchain(),
            final(swapchain_state).extent() == old(swapchain_state).extent(),
            final(swapchain_state).format() == old(swapchain_state).format(),
            match r {
                Ok((state, commands)) => {
                    &&& old(swapchain_state).backbuffer() matches Some(backbuffer)
                    &&& state.wf()
                    &&& state.first_handle() == old(device).next_handle()
                    &&& state.frame_images().len() == image_count(backbuffer)
                    &&& state.framebuffers().len() == framebuffer_count(backbuffer)
                    &&& state.slots() == slot_count(backbuffer)
                    &&& state.last_semaphore_index() == 0
                    &&& commands@ == creation_commands(
                        old(device).next_handle() as int,
                        backbuffer,
                        old(swapchain_state).swapchain(),
                        render_pass_state.render_pass(),
                        old(swapchain_state).format(),
                        old(swapchain_state).extent(),
                        old(device).queue_family(),
                    )
                },
                Err(e) => {
                    &&& e == GpuError::Configuration
                    &&& old(swapchain_state).backbuffer() is None
                },
            },
    {
        match swapchain_state.take_backbuffer() {
            Some(backbuffer) => Ok(
                Self::from_backbuffer(device, render_pass_state, swapchain_state, backbuffer),
            ),
            None => Err(GpuError::Configuration),
        }
    }

    /// Names the views and framebuffers for `backbuffer`, which the device
    /// handed out for the swapchain, and for each frame slot a fence, a
    /// command pool and two semaphores.
    pub fn from_backbuffer(
        device: &mut DeviceState,
        render_pass_state: &RenderPassState,
        swapchain_state: &SwapchainState,
        backbuffer: Backbuffer,
    ) -> (r: (FramebufferState, Vec<Command>))
        requires
            old(device).has_room(handles_needed(Some(backbuffer))),
        ensures
            final(device).queue_family() == old(device).queue_family(),
            final(device).next_handle() == old(device).next_handle() + handles_needed(
                Some(backbuffer),
            ),
            r.0.wf(),
            r.0.first_handle() == old(device).next_handle(),
            r.0.frame_images().len() == image_count(backbuffer),
            r.0.framebuffers().len() == framebuffer_count(backbuffer),
            r.0.slots() == slot_count(backbuffer),
            r.0.last_semaphore_index() == 0,
            r.1@ == creation_commands(
                old(device).next_handle() as int,
                backbuffer,
                swapchain_state.swapchain(),
                render_pass_state.render_pass(),
                swapchain_state.format(),
                swapchain_state.extent(),
                old(device).queue_family(),
            ),
    {
        let swapchain = swapchain_state.get_swapchain();
        let format = swapchain_state.get_format();
        let extent = swapchain_state.get_extent();
        let render_pass = render_pass_state.get_render_pass();
        let family = device.get_queue_family();
        let images: usize = match backbuffer {
            Backbuffer::Images(count) => count as usize,
            Backbuffer::Framebuffer => 0,
        };
        let buffers: usize = match backbuffer {
            Backbuffer::Images(count) => count as usize,
            Backbuffer::Framebuffer => 1,
        };
        let slots: usize = if images != 0 {
            images
        } else {
            1  // a backend without images still has one frame in flight
        };
        let total: u64 = 2 * (images as u64) + buffers as u64 + 4 * (slots as u64);
        let first: u64 = device.allocate(total).0;
        let mut commands: Vec<Command> = Vec::new();
        let mut frame_images: Vec<(Handle, Handle)> = Vec::new();
        match backbuffer {
            Backbuffer::Images(_) => {
                let mut i: usize = 0;
                while i < images
                    invariant
                        i <= images,
                        images <= u32::MAX,
                        first + 2 * images <= u64::MAX,
                        frame_images@ == frame_image_pairs(first as int, images as int).take(
                            i as int,
                        ),
                        commands@ == Seq::new(
                            (2 * i) as nat,
                            |k: int|
                                image_commands(
                                    first as int,
                                    images as int,
                                    swapchain,
                                    render_pass,
                                    format,
                                    extent,
                                )[k],
                        ),
                    decreases images - i,
                {
                    let image = Handle(first + i as u64);
                    let view = Handle(first + images as u64 + i as u64);
                    commands.push(
                        Command::AdoptSwapchainImage { image, swapchain, index: i as u32 },
                    );
                    commands.push(
                        Command::CreateImageView { view, image, format, aspects: ASPECT_COLOR },
                    );
                    frame_images.push((image, view));
                    i += 1;
                }
                let mut i: usize = 0;
                while i < images
                    invariant
                        i <= images,
                        first + 3 * images <= u64::MAX,
                        commands@ == Seq::new(
                            (2 * images + i) as nat,
                            |k: int|
                                image_commands(
                                    first as int,
                                    images as int,
                                    swapchain,
                                    render_pass,
                                    format,
                                    extent,
                                )[k],
                        ),
                    decreases images - i,
                {
                    commands.push(
                        Command::CreateFramebuffer {
                            framebuffer: Handle(first + 2 * (images as u64) + i as u64),
                            render_pass,
                            view: Handle(first + images as u64 + i as u64),
                            extent,
                        },
                    );
                    i += 1;
                }
                assert(commands@ == image_commands(
                    first as int,
                    images as int,
                    swapchain,
                    render_pass,
                    format,
                    extent,
                ));
            },
            Backbuffer::Framebuffer => {
                commands.push(
                    Command::AdoptSwapchainFramebuffer { framebuffer: Handle(first), swapchain },
                );
            },
        }
        let ghost head = commands@;
        let slot_first: u64 = first + 2 * (images as u64) + buffers as u64;
        let mut j: usize = 0;
        while j < slots
            invariant
                j <= slots,
                slot_first + 4 * slots <= u64::MAX,
                commands@ == head + Seq::new(
                    (4 * j) as nat,
                    |k: int| slot_commands(slot_first as int, slots as int, family)[k],
                ),
            decreases slots - j,
        {
            commands.push(
                Command::CreateFence { fence: Handle(slot_first + j as u64), signaled: true },
            );
            commands.push(
                Command::CreateCommandPool {
                    pool: Handle(slot_first + slots as u64 + j as u64),
                    family,
                },
            );
            commands.push(
                Command::CreateSemaphore {
                    semaphore: Handle(slot_first + 2 * (slots as u64) + j as u64),
                },
            );
            commands.push(
                Command::CreateSemaphore {
                    semaphore: Handle(slot_first + 3 * (slots as u64) + j as u64),
                },
            );
            j += 1;
        }
        assert(commands@ == head + slot_commands(slot_first as int, slots as int, family));
        assert(frame_images@ == frame_image_pairs(first as int, images as int));
        let state = FramebufferState {
            first_handle: first,
            framebuffers: make_handle_range(first + 2 * (images as u64), buffers),
            framebuffer_fences: make_handle_range(slot_first, slots),
            command_pools: make_handle_range(slot_first + slots as u64, slots),
            frame_images,
            acquire_semaphores: make_handle_range(slot_first + 2 * (slots as u64), slots),
            present_semaphores: make_handle_range(slot_first + 3 * (slots as u64), slots),
            last_semaphore_index: 0,
        };
        (state, commands)
    }

    /// The fence, framebuffer and command pool of the image `frame_id`, and
    /// the acquire and present semaphores of the slot `semaphore_index`.
    pub fn get_frame_data(&self, frame_id: Option<usize>, semaphore_index: Option<usize>) -> (r:
        Result<(Option<(Handle, Handle, Handle)>, Option<(Handle, Handle)>), GpuError>)
        ensures
            match r {
                Ok((frame, semaphores)) => {
                    &&& match frame_id {
                        Some(id) => {
                            &&& id < self.framebuffers().len()
                            &&& id < self.slots()
                            &&& frame == Some(
                                (
                                    self.framebuffer_fences()[id as int],
                                    self.framebuffers()[id as int],
                                    self.command_pools()[id as int],
                                ),
                            )
                        },
                        None => frame is None,
                    }
                    &&& match semaphore_index {
                        Some(index) => {
                            &&& index < self.slots()
                            &&& semaphores == Some(
                                (
                                    self.acquire_semaphores()[index as int],
                                    self.present_semaphores()[index as int],
                                ),
                            )
                        },
                        None => semaphores is None,
                    }
                },
                Err(e) => {
                    &&& e == GpuError::Configuration
                    &&& (frame_id matches Some(id) && (id >= self.framebuffers().len() || id
                        >= self.slots())) || (semaphore_index matches Some(index) && index
                        >= self.slots())
                },
            },
    {
        proof {
            use_type_invariant(self);
        }
        let frame = match frame_id {
            Some(id) => {
                if id >= self.framebuffers.len() || id >= self.framebuffer_fences.len() {
                    return Err(GpuError::Configuration);
                }
                Some((self.framebuffer_fences[id], self.framebuffers[id], self.command_pools[id]))
            },
            None => None,
        };
        let semaphores = match semaphore_index {
            Some(index) => {
                if index >= self.acquire_semaphores.len() {
                    return Err(GpuError::Configuration);
                }
                Some((self.acquire_semaphores[index], self.present_semaphores[index]))
            },
            None => None,
        };
        Ok((frame, semaphores))
    }

    /// Number of frame slots.
    pub fn slot_len(&self) -> (r: usize)
        ensures
            r == self.slots(),
            r >= 1,
    {
        proof {
            use_type_invariant(self);
        }
        self.framebuffer_fences.len()
    }

    /// What `destroy` tells the device.
    pub open spec fn teardown_commands(&self) -> Seq<Command> {
        fence_teardown(self.framebuffer_fences()) + destroy_all(
            ResourceKind::CommandPool,
            self.command_pools(),
        ) + destroy_all(ResourceKind::Semaphore, self.acquire_semaphores()) + destroy_all(
            ResourceKind::Semaphore,
            self.present_semaphores(),
        ) + destroy_all(ResourceKind::Framebuffer, self.framebuffers()) + destroy_all(
            ResourceKind::ImageView,
            self.frame_images().map_values(|pair: (Handle, Handle)| pair.1),
        )
    }

    /// Waits for each fence and destroys it, then destroys the command
    /// pools, the acquire semaphores, the present semaphores, the
    /// framebuffers and the image views, in that order.
    pub fn destroy(self) -> (r: Vec<Command>)
        ensures
            r@ == self.teardown_commands(),
    {
        let mut commands: Vec<Command> = Vec::new();
        let mut i: usize = 0;
        while i < self.framebuffer_fences.len()
            invariant
                i <= self.framebuffer_fences@.len(),
                commands@ == fence_teardown(self.framebuffer_fences@.take(i as int)),
            decreases self.framebuffer_fences@.len() - i,
        {
            let fence = self.framebuffer_fences[i];
            commands.push(Command::WaitForFence { fence });
            commands.push(Command::Destroy { kind: ResourceKind::Fence, handle: fence });
            i += 1;
        }
        assert(self.framebuffer_fences@.take(self.framebuffer_fences@.len() as int)
            == self.framebuffer_fences@);
        push_destroy_all(&mut commands, ResourceKind::CommandPool, &self.command_pools);
        push_destroy_all(&mut commands, ResourceKind::Semaphore, &self.acquire_semaphores);
        push_destroy_all(&mut commands, ResourceKind::Semaphore, &self.present_semaphores);
        push_destroy_all(&mut commands, ResourceKind::Framebuffer, &self.framebuffers);
        let mut views: Vec<Handle> = Vec::new();
        let mut i: usize = 0;
        while i < self.frame_images.len()
            invariant
                i <= self.frame_images@.len(),
                views@ == self.frame_images@.take(i as int).map_values(
                    |pair: (Handle, Handle)| pair.1,
                ),
            decreases self.frame_images@.len() - i,
        {
            views.push(self.frame_images[i].1);
            i += 1;
        }
        assert(self.frame_images@.take(self.frame_images@.len() as int) == self.frame_images@);
        push_destroy_all(&mut commands, ResourceKind::ImageView, &views);
        commands
    }

    /// Returns the next available framebuffer semaphore index: the slots
    /// are handed out in turn, whatever image was acquired in between.
    pub fn get_next_semaphore_index(&mut self) -> (r: usize)
        ensures
            r == next_slot(old(self).last_semaphore_index() as int, old(self).slots()),
            r < old(self).slots(),
            final(self).last_semaphore_index() == r + 1,
            final(self).first_handle() == old(self).first_handle(),
            final(self).framebuffers() == old(self).framebuffers(),
            final(self).framebuffer_fences() == old(self).framebuffer_fences(),
            final(self).command_pools() == old(self).command_pools(),
            final(self).frame_images() == old(self).frame_images(),
            final(self).acquire_semaphores() == old(self).acquire_semaphores(),
            final(self).present_semaphores() == old(self).present_semaphores(),
    {
        proof {
            use_type_invariant(&*self);
        }
        if self.last_semaphore_index >= self.acquire_semaphores.len() {
            self.last_semaphore_index = 0;
        }
        let semaphore_index = self.last_semaphore_index;
        self.last_semaphore_index += 1;
        semaphore_index
    }
}

} // verus!
