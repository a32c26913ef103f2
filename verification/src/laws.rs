use crate::device::{Command, Handle, ResourceKind};
use crate::frame::{
    build_commands, chain_handles, event_fits, step_commands, step_view, ChainView, FrameEvent,
    FrameState, FrameView,
};
use crate::framebuffer::{image_count, next_slot};
use crate::image::{
    is_alignment_mask, lemma_align_up, masked_row_pitch, row_pitch_spec, tight_row_size,
    upload_size_spec,
};
use crate::format::Format;
use crate::swapchain::{
    can_configure, clamp_extent_spec, Backbuffer, Extent, Extent2D, SurfaceCapabilities,
};
use vstd::arithmetic::div_mod::{lemma_fundamental_div_mod, lemma_mod_multiples_basic};
use crate::adapter::Limits;
use crate::buffer::{row_mask, rows_fit};
use vstd::bits::{lemma_low_bits_mask_values, low_bits_mask};
use vstd::prelude::*;

verus! {

/// For an alignment that is a power of two, the row pitch is the least
/// multiple of the alignment that holds a tightly packed row.
pub proof fn lemma_row_pitch_is_least_multiple(width: u32, mask: u32)
    requires
        is_alignment_mask(mask),
        tight_row_size(width) + mask <= u32::MAX,
    ensures
        masked_row_pitch(width, mask) == row_pitch_spec(width, mask),
        masked_row_pitch(width, mask) as int % (mask + 1) == 0,
        tight_row_size(width) <= masked_row_pitch(width, mask) < tight_row_size(width) + mask + 1,
{
    let tight = (width * 4) as u32;
    lemma_align_up(tight, mask);
    let total = tight + mask;
    let alignment = mask + 1;
    lemma_fundamental_div_mod(total, alignment);
    lemma_mod_multiples_basic(total / alignment, alignment);
    assert(alignment * (total / alignment) == (total / alignment) * alignment) by (nonlinear_arith);
    assert(0 <= total % alignment < alignment) by (nonlinear_arith)
        requires
            alignment > 0,
    ;
}

/// A power of two up to 2 to the 31st is one more than the mask of some
/// number of low bits.
pub proof fn lemma_power_of_two_mask(alignment: u64)
    requires
        0 < alignment <= 0x8000_0000,
        alignment & ((alignment - 1) as u64) == 0,
    ensures
        is_alignment_mask((alignment - 1) as u32),
{
    assert(alignment == 0x1 || alignment == 0x2 || alignment == 0x4 || alignment == 0x8
        || alignment == 0x10 || alignment == 0x20 || alignment == 0x40 || alignment == 0x80
        || alignment == 0x100 || alignment == 0x200 || alignment == 0x400 || alignment == 0x800
        || alignment == 0x1000 || alignment == 0x2000 || alignment == 0x4000 || alignment
        == 0x8000 || alignment == 0x1_0000 || alignment == 0x2_0000 || alignment == 0x4_0000
        || alignment == 0x8_0000 || alignment == 0x10_0000 || alignment == 0x20_0000 || alignment
        == 0x40_0000 || alignment == 0x80_0000 || alignment == 0x100_0000 || alignment
        == 0x200_0000 || alignment == 0x400_0000 || alignment == 0x800_0000 || alignment
        == 0x1000_0000 || alignment == 0x2000_0000 || alignment == 0x4000_0000 || alignment
        == 0x8000_0000) by (bit_vector)
        requires
            0 < alignment <= 0x8000_0000,
            alignment & ((alignment - 1) as u64) == 0,
    ;
    lemma_low_bits_mask_values();
    let mask = (alignment - 1) as nat;
    assert(mask == low_bits_mask(0) || mask == low_bits_mask(1) || mask == low_bits_mask(2) || mask
        == low_bits_mask(3) || mask == low_bits_mask(4) || mask == low_bits_mask(5) || mask
        == low_bits_mask(6) || mask == low_bits_mask(7) || mask == low_bits_mask(8) || mask
        == low_bits_mask(9) || mask == low_bits_mask(10) || mask == low_bits_mask(11) || mask
        == low_bits_mask(12) || mask == low_bits_mask(13) || mask == low_bits_mask(14) || mask
        == low_bits_mask(15) || mask == low_bits_mask(16) || mask == low_bits_mask(17) || mask
        == low_bits_mask(18) || mask == low_bits_mask(19) || mask == low_bits_mask(20) || mask
        == low_bits_mask(21) || mask == low_bits_mask(22) || mask == low_bits_mask(23) || mask
        == low_bits_mask(24) || mask == low_bits_mask(25) || mask == low_bits_mask(26) || mask
        == low_bits_mask(27) || mask == low_bits_mask(28) || mask == low_bits_mask(29) || mask
        == low_bits_mask(30) || mask == low_bits_mask(31));
}

/// With the limits of an adapter whose copy alignment is sound, the row
/// pitch of a texture is the least multiple of that alignment that holds a
/// tightly packed row.
pub proof fn lemma_row_pitch_for_limits(limits: Limits, width: u32)
    requires
        rows_fit(limits, width),
    ensures
        masked_row_pitch(width, row_mask(limits)) as int % (
        limits.min_buffer_copy_pitch_alignment as int) == 0,
        tight_row_size(width) <= masked_row_pitch(width, row_mask(limits)) < tight_row_size(width)
            + limits.min_buffer_copy_pitch_alignment,
{
    lemma_power_of_two_mask(limits.min_buffer_copy_pitch_alignment);
    lemma_row_pitch_is_least_multiple(width, row_mask(limits));
}

/// The upload size of an image is its row pitch times its height, whatever
/// else is known of the image; so two computations of it agree. Both
/// `Image::get_upload_size` and `Image::checked_upload_size` return this
/// value, the second for every mask for which there is one.
pub proof fn lemma_upload_size_is_pitch_times_height(width: u32, height: u32, mask: u32)
    ensures
        upload_size_spec(width, height, mask) == masked_row_pitch(width, mask) * height,
        upload_size_spec(width, height, mask) >= 0,
{
    assert(height as int * masked_row_pitch(width, mask) as int == masked_row_pitch(width, mask)
        * height) by (nonlinear_arith);
    assert(height as int * masked_row_pitch(width, mask) as int >= 0) by (nonlinear_arith);
}

/// The renderer between two frames, with nothing that asks for a new
/// swapchain.
pub open spec fn is_ready(view: FrameView) -> bool {
    view.wf() && view.state == FrameState::Idle && !view.will_recreate_swapchain
}

/// The renderer after one whole frame that went well: the window was
/// polled, the swapchain handed out `image`, the commands were recorded and
/// submitted, and the image was presented.
pub open spec fn after_frame(view: FrameView, image: u32) -> FrameView {
    let polled = step_view(view, FrameEvent::Polled { close: false, resize: None });
    let acquired = step_view(polled, FrameEvent::Acquired { image });
    let recorded = step_view(acquired, FrameEvent::Done);
    let submitted = step_view(recorded, FrameEvent::Done);
    step_view(submitted, FrameEvent::Presented)
}

/// The renderer after `frames` whole frames, of which frame `n` drew into
/// the image `images(n)`.
pub open spec fn after_frames(view: FrameView, images: spec_fn(nat) -> u32, frames: nat) -> FrameView
    decreases frames,
{
    if frames == 0 {
        view
    } else {
        after_frame(after_frames(view, images, (frames - 1) as nat), images((frames - 1) as nat))
    }
}

/// A whole frame leaves the renderer ready for the next, whichever image it
/// drew into, and the slot it used is the one that was next in turn.
pub proof fn lemma_frame_keeps_ready(view: FrameView, image: u32)
    requires
        is_ready(view),
        image < view.chain->0.buffers,
        image < view.chain->0.slots(),
    ensures
        is_ready(after_frame(view, image)),
        after_frame(view, image).chain == view.chain,
        after_frame(view, image).semaphore_index == next_slot(
            view.last_semaphore_index as int,
            view.chain->0.slots(),
        ),
        after_frame(view, image).last_semaphore_index == after_frame(view, image).semaphore_index
            + 1,
{
}

/// Frame slot recycling: from a new renderer on, frame number `n` uses the
/// slot `n` modulo the number of slots, whichever images the swapchain hands
/// out on the way.
pub proof fn lemma_slots_rotate(view: FrameView, images: spec_fn(nat) -> u32, frames: nat)
    requires
        is_ready(view),
        view.last_semaphore_index == 0,
        forall|n: nat|
            (#[trigger] images(n)) < view.chain->0.buffers && images(n) < view.chain->0.slots(),
    ensures
        is_ready(after_frames(view, images, frames)),
        after_frames(view, images, frames).chain == view.chain,
        frames > 0 ==> after_frames(view, images, frames).semaphore_index == (frames - 1)
            % view.chain->0.slots(),
        frames > 0 ==> after_frames(view, images, frames).last_semaphore_index == (frames - 1)
            % view.chain->0.slots() + 1,
    decreases frames,
{
    let slots = view.chain->0.slots();
    if frames > 0 {
        let before = after_frames(view, images, (frames - 1) as nat);
        lemma_slots_rotate(view, images, (frames - 1) as nat);
        let image = images((frames - 1) as nat);
        lemma_frame_keeps_ready(before, image);
        if frames > 1 {
            assert((frames - 1) % slots == if (frames - 2) % slots + 1 >= slots {
                0
            } else {
                (frames - 2) % slots + 1
            }) by (nonlinear_arith)
                requires
                    slots >= 1,
                    frames >= 2,
            ;
        } else {
            assert(0int % slots == 0) by (nonlinear_arith)
                requires
                    slots >= 1,
            ;
        }
    }
}

/// An image is presented exactly once in a frame: the only step that tells
/// the device to present is the one that follows the submission, and it
/// tells it once.
pub proof fn lemma_present_once_per_frame(view: FrameView, event: FrameEvent, index: int)
    requires
        view.wf(),
        event_fits(view, event),
        0 <= index < step_commands(view, event).len(),
    ensures
        step_commands(view, event)[index] is Present <==> (view.state == FrameState::Submit
            && event is Done),
        view.state == FrameState::Submit && event is Done ==> step_commands(view, event).len()
            == 1,
{
    broadcast use vstd::seq::group_seq_axioms;

    let commands = step_commands(view, event);
    match event {
        FrameEvent::Polled { close, resize } => {
            let after = step_view(view, event);
            if after.state == FrameState::RecreateSwapchain {
                lemma_teardown_shape(view.chain->0, index - 1);
            }
        },
        FrameEvent::SwapchainCreated { backbuffer } => {
            lemma_build_shape(view, backbuffer, index);
        },
        _ => {},
    }
}

/// Every command of the teardown of a chain waits for a fence or destroys
/// an object.
pub proof fn lemma_teardown_shape(chain: ChainView, index: int)
    requires
        chain.wf(),
    ensures
        0 <= index < chain.teardown().len() ==> chain.teardown()[index] is WaitForFence
            || chain.teardown()[index] is Destroy,
{
    broadcast use vstd::seq::group_seq_axioms;

}

/// No command of the building of a chain presents anything.
pub proof fn lemma_build_shape(view: FrameView, backbuffer: Backbuffer, index: int)
    ensures
        0 <= index < build_commands(view, backbuffer).len() ==> !(build_commands(
            view,
            backbuffer,
        )[index] is Present),
{
    broadcast use vstd::seq::group_seq_axioms;

}

/// The chain owns an object of this kind under this handle.
pub open spec fn chain_owns(chain: ChainView, kind: ResourceKind, handle: Handle) -> bool {
    let slots = chain.slots();
    let h = handle.0 as int;
    match kind {
        ResourceKind::Fence => chain.slot_first() <= h < chain.slot_first() + slots,
        ResourceKind::CommandPool => chain.slot_first() + slots <= h < chain.slot_first() + 2
            * slots,
        ResourceKind::Semaphore => chain.slot_first() + 2 * slots <= h < chain.slot_first() + 4
            * slots,
        ResourceKind::Framebuffer => chain.first_handle + 2 * chain.images <= h
            < chain.first_handle + 2 * chain.images + chain.buffers,
        ResourceKind::ImageView => chain.first_handle + chain.images <= h < chain.first_handle
            + 2 * chain.images,
        ResourceKind::GraphicsPipeline => handle == chain.pipeline,
        ResourceKind::PipelineLayout => handle == chain.pipeline_layout,
        ResourceKind::RenderPass => handle == chain.render_pass,
        _ => false,
    }
}

/// The command that destroys an object.
pub open spec fn destroy(kind: ResourceKind, handle: Handle) -> Command {
    Command::Destroy { kind, handle }
}

/// The object is destroyed at exactly one place of `commands`.
pub open spec fn destroyed_once(commands: Seq<Command>, kind: ResourceKind, handle: Handle) -> bool {
    exists|i: int|
        {
            &&& 0 <= i < commands.len()
            &&& #[trigger] commands[i] == destroy(kind, handle)
            &&& forall|j: int|
                0 <= j < commands.len() && #[trigger] commands[j] == destroy(kind, handle) ==> j
                    == i
        }
}

/// The place in the teardown of a chain at which an object that the chain
/// owns is destroyed.
pub open spec fn teardown_index(chain: ChainView, kind: ResourceKind, handle: Handle) -> int {
    let slots = chain.slots();
    let h = handle.0 as int;
    match kind {
        ResourceKind::Fence => 2 * (h - chain.slot_first()) + 1,
        ResourceKind::CommandPool => 2 * slots + (h - (chain.slot_first() + slots)),
        ResourceKind::Semaphore => 3 * slots + (h - (chain.slot_first() + 2 * slots)),
        ResourceKind::Framebuffer => 5 * slots + (h - (chain.first_handle + 2 * chain.images)),
        ResourceKind::ImageView => 5 * slots + chain.buffers + (h - (chain.first_handle
            + chain.images)),
        ResourceKind::GraphicsPipeline => 5 * slots + chain.buffers + chain.images,
        ResourceKind::PipelineLayout => 5 * slots + chain.buffers + chain.images + 1,
        _ => 5 * slots + chain.buffers + chain.images + 2,
    }
}

/// What stands at each place of the teardown of a chain.
pub proof fn lemma_teardown_at(chain: ChainView, index: int)
    requires
        chain.wf(),
        0 <= index < 5 * chain.slots() + chain.buffers + chain.images + 3,
    ensures
        chain.teardown().len() == 5 * chain.slots() + chain.buffers + chain.images + 3,
        chain.teardown()[index] == if index < 2 * chain.slots() {
            if index % 2 == 0 {
                Command::WaitForFence { fence: chain.fence(index / 2) }
            } else {
                destroy(ResourceKind::Fence, chain.fence(index / 2))
            }
        } else if index < 3 * chain.slots() {
            destroy(ResourceKind::CommandPool, chain.command_pool(index - 2 * chain.slots()))
        } else if index < 4 * chain.slots() {
            destroy(ResourceKind::Semaphore, chain.acquire_semaphore(index - 3 * chain.slots()))
        } else if index < 5 * chain.slots() {
            destroy(ResourceKind::Semaphore, chain.present_semaphore(index - 4 * chain.slots()))
        } else if index < 5 * chain.slots() + chain.buffers {
            destroy(ResourceKind::Framebuffer, chain.framebuffer(index - 5 * chain.slots()))
        } else if index < 5 * chain.slots() + chain.buffers + chain.images {
            destroy(
                ResourceKind::ImageView,
                chain.image_view(index - 5 * chain.slots() - chain.buffers),
            )
        } else if index == 5 * chain.slots() + chain.buffers + chain.images {
            destroy(ResourceKind::GraphicsPipeline, chain.pipeline)
        } else if index == 5 * chain.slots() + chain.buffers + chain.images + 1 {
            destroy(ResourceKind::PipelineLayout, chain.pipeline_layout)
        } else {
            destroy(ResourceKind::RenderPass, chain.render_pass)
        },
{
    broadcast use vstd::seq::group_seq_axioms;

}

/// Swapchain recreation, first half: taking a chain down destroys each
/// object that the chain owns exactly once, be it the render pass, a
/// framebuffer, an image view, the pipeline or a part of a frame slot.
pub proof fn lemma_teardown_destroys_once(chain: ChainView, kind: ResourceKind, handle: Handle)
    requires
        chain.wf(),
        chain_owns(chain, kind, handle),
    ensures
        destroyed_once(chain.teardown(), kind, handle),
{
    let commands = chain.teardown();
    let at = teardown_index(chain, kind, handle);
    let slots = chain.slots();
    lemma_teardown_at(chain, at);
    assert(commands[at] == destroy(kind, handle));
    assert forall|j: int|
        0 <= j < commands.len() && #[trigger] commands[j] == destroy(kind, handle) implies j
        == at by {
        lemma_teardown_at(chain, j);
        if j < 2 * slots {
            assert(j % 2 == 1);
            assert(chain.fence(j / 2) == handle);
        } else if j < 3 * slots {
            assert(chain.command_pool(j - 2 * slots) == handle);
        } else if j < 4 * slots {
            assert(chain.acquire_semaphore(j - 3 * slots) == handle);
        } else if j < 5 * slots {
            assert(chain.present_semaphore(j - 4 * slots) == handle);
        } else if j < 5 * slots + chain.buffers {
            assert(chain.framebuffer(j - 5 * slots) == handle);
        } else if j < 5 * slots + chain.buffers + chain.images {
            assert(chain.image_view(j - 5 * slots - chain.buffers) == handle);
        }
    }
}

/// While a chain is taken down, no framebuffer outlives the image view that
/// it was made of: every framebuffer is destroyed before any image view.
pub proof fn lemma_framebuffers_go_before_views(chain: ChainView, framebuffer: int, view: int)
    requires
        chain.wf(),
        0 <= framebuffer < chain.buffers,
        0 <= view < chain.images,
    ensures
        ({
            let first = teardown_index(
                chain,
                ResourceKind::Framebuffer,
                chain.framebuffer(framebuffer),
            );
            let second = teardown_index(chain, ResourceKind::ImageView, chain.image_view(view));
            &&& 0 <= first < second < chain.teardown().len()
            &&& chain.teardown()[first] == destroy(
                ResourceKind::Framebuffer,
                chain.framebuffer(framebuffer),
            )
            &&& chain.teardown()[second] == destroy(ResourceKind::ImageView, chain.image_view(view))
        }),
{
    let first = teardown_index(chain, ResourceKind::Framebuffer, chain.framebuffer(framebuffer));
    let second = teardown_index(chain, ResourceKind::ImageView, chain.image_view(view));
    lemma_teardown_at(chain, first);
    lemma_teardown_at(chain, second);
}

/// Taking a chain down destroys nothing but what the chain owns.
pub proof fn lemma_teardown_destroys_own(chain: ChainView, index: int)
    requires
        chain.wf(),
        0 <= index < chain.teardown().len(),
    ensures
        chain.teardown()[index] matches Command::Destroy { kind, handle } ==> chain_owns(
            chain,
            kind,
            handle,
        ),
{
    lemma_teardown_at(chain, 0);
    lemma_teardown_at(chain, index);
}

/// The renderer once the chain is down after a resize to `extent`.
pub open spec fn after_teardown(view: FrameView, extent: Extent2D) -> FrameView {
    step_view(view, FrameEvent::Polled { close: false, resize: Some(extent) })
}

/// The renderer once the new swapchain is configured after a resize.
pub open spec fn after_configure(
    view: FrameView,
    extent: Extent2D,
    caps: SurfaceCapabilities,
    formats: Option<Vec<Format>>,
) -> FrameView {
    step_view(after_teardown(view, extent), FrameEvent::SurfaceQueried { caps, formats })
}

/// The renderer once the new chain is built after a resize.
pub open spec fn after_resize(
    view: FrameView,
    extent: Extent2D,
    caps: SurfaceCapabilities,
    formats: Option<Vec<Format>>,
    backbuffer: Backbuffer,
) -> FrameView {
    step_view(
        after_configure(view, extent, caps, formats),
        FrameEvent::SwapchainCreated { backbuffer },
    )
}

/// Swapchain recreation, second half. After a resize the old chain is taken
/// down as a whole, before anything new is made; the new swapchain has the
/// extent that the surface allows for the new size, and the viewport
/// covers it; every object of the new chain has a handle that was never in
/// use before, so none of them is among the objects that were destroyed,
/// and nothing that is destroyed while the new chain is built was there
/// before; and each new framebuffer is made for the new extent and the new
/// render pass, of an image view of the new chain.
pub proof fn lemma_recreation(
    view: FrameView,
    extent: Extent2D,
    caps: SurfaceCapabilities,
    formats: Option<Vec<Format>>,
    backbuffer: Backbuffer,
)
    requires
        view.wf(),
        view.state == FrameState::Idle,
        can_configure(caps),
        view.next_handle + 1 + chain_handles(backbuffer) <= u64::MAX,
    ensures
        ({
            let old_chain = view.chain->0;
            let torn = after_teardown(view, extent);
            let configured = after_configure(view, extent, caps, formats);
            let rebuilt = after_resize(view, extent, caps, formats, backbuffer);
            let new_chain = rebuilt.chain->0;
            let clamped = clamp_extent_spec(caps, extent);
            let built = step_commands(configured, FrameEvent::SwapchainCreated { backbuffer });
            &&& event_fits(view, FrameEvent::Polled { close: false, resize: Some(extent) })
            &&& event_fits(torn, FrameEvent::SurfaceQueried { caps, formats })
            &&& event_fits(configured, FrameEvent::SwapchainCreated { backbuffer })
            &&& step_commands(view, FrameEvent::Polled { close: false, resize: Some(extent) })
                == seq![Command::WaitIdle] + old_chain.teardown()
            &&& torn.chain is None
            &&& rebuilt.wf()
            &&& rebuilt.state == FrameState::Idle
            &&& !rebuilt.will_recreate_swapchain
            &&& rebuilt.extent == (Extent { width: clamped.width, height: clamped.height, depth: 1 })
            &&& rebuilt.viewport == clamped
            &&& forall|kind: ResourceKind, handle: Handle| #[trigger]
                chain_owns(old_chain, kind, handle) ==> handle.0 < view.next_handle
            &&& forall|kind: ResourceKind, handle: Handle| #[trigger]
                chain_owns(new_chain, kind, handle) ==> handle.0 > view.next_handle
            &&& forall|i: int|
                0 <= i < built.len() ==> (#[trigger] built[i] matches Command::Destroy {
                    handle,
                    ..
                } ==> handle.0 > view.next_handle)
            &&& forall|i: int|
                0 <= i < image_count(backbuffer) ==> #[trigger] built[1 + 2 * image_count(
                    backbuffer,
                ) + i] == (Command::CreateFramebuffer {
                    framebuffer: new_chain.framebuffer(i),
                    render_pass: new_chain.render_pass,
                    view: new_chain.image_view(i),
                    extent: rebuilt.extent,
                })
        }),
{
    broadcast use vstd::seq::group_seq_axioms;

}

} // verus!
