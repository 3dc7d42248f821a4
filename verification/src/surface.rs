//! The presentation surface: an off-screen render target the dispatch
//! writes, a double-buffered swap chain, and the exact barrier sequence
//! that carries a finished frame to the back buffer and back.

use vstd::prelude::*;
use crate::commands::GpuCommand;
use crate::device_interface::DeviceInterface;
use crate::resource::{
    texture_bytes, AllocationError, OpaqueResource, ResourceDesc, ResourceDimension,
    ResourceFlags, ResourceState,
};
use crate::window_handle::WindowHandle;

verus! {

/// The window's client rectangle as the platform reports it.
#[derive(Clone, Copy, Debug, PartialEq, Eq, Structural)]
pub struct ClientRect {
    pub left: i32,
    pub top: i32,
    pub right: i32,
    pub bottom: i32,
}

/// One extent of the render target: the client extent, or one where the
/// client area is empty, so no allocation is ever degenerate.
pub open spec fn clamped_extent(low: int, high: int) -> int {
    if high - low < 1 {
        1
    } else {
        high - low
    }
}

pub fn client_extent(low: i32, high: i32) -> (r: u32)
    ensures
        r == clamped_extent(low as int, high as int),
{
    let d: i64 = (high as i64) - (low as i64);
    if d < 1 {
        1
    } else {
        d as u32
    }
}

/// The double-buffered swap chain: two back buffers and the index of
/// the one the next present will fill.
pub struct SwapChain {
    pub width: u32,
    pub height: u32,
    pub current_index: u32,
    pub back_buffer_0: OpaqueResource,
    pub back_buffer_1: OpaqueResource,
}

impl SwapChain {
    pub open spec fn wf(self) -> bool {
        &&& self.current_index < 2
        &&& self.back_buffer_0.wf()
        &&& self.back_buffer_1.wf()
        &&& self.back_buffer_0.state == ResourceState::Present
        &&& self.back_buffer_1.state == ResourceState::Present
        &&& self.back_buffer_0.desc.width == self.width
        &&& self.back_buffer_1.desc.width == self.width
        &&& self.back_buffer_0.desc.height == self.height
        &&& self.back_buffer_1.desc.height == self.height
    }

    /// The back buffer the next present will copy into.
    pub open spec fn current_back_buffer(self) -> OpaqueResource {
        if self.current_index == 0 {
            self.back_buffer_0
        } else {
            self.back_buffer_1
        }
    }
}

pub struct Surface {
    /// The off-screen UAV-writable render target the dispatch fills.
    pub target: OpaqueResource,
    pub window: WindowHandle,
    pub swap_chain: SwapChain,
    /// The address the single shader-visible descriptor-heap slot's
    /// view points at; recreated with the target, at the same slot.
    pub uav_target: u64,
}

/// The exact present sequence: target out to copy-source, back buffer
/// in to copy-destination, the copy, then both restored.  Any deviation
/// from this order is a protocol bug, so it is stated as one value.
pub open spec fn present_commands(s: Surface) -> Seq<GpuCommand> {
    seq![
        GpuCommand::Transition {
            resource: s.target.address,
            before: ResourceState::UnorderedAccess,
            after: ResourceState::CopySource,
        },
        GpuCommand::Transition {
            resource: s.swap_chain.current_back_buffer().address,
            before: ResourceState::Present,
            after: ResourceState::CopyDest,
        },
        GpuCommand::CopyResource {
            dest: s.swap_chain.current_back_buffer().address,
            source: s.target.address,
        },
        GpuCommand::Transition {
            resource: s.swap_chain.current_back_buffer().address,
            before: ResourceState::CopyDest,
            after: ResourceState::Present,
        },
        GpuCommand::Transition {
            resource: s.target.address,
            before: ResourceState::CopySource,
            after: ResourceState::UnorderedAccess,
        },
    ]
}

/// Records one state transition; the resource must really be in the
/// state the barrier names as `before`.
fn barrier(
    interface: &mut DeviceInterface,
    resource: &mut OpaqueResource,
    before: ResourceState,
    after: ResourceState,
)
    requires
        old(interface).recording(),
        old(resource).state == before,
    ensures
        final(interface).recording(),
        final(interface).commands@ == old(interface).commands@.push(
            GpuCommand::Transition { resource: old(resource).address, before, after },
        ),
        final(interface).fence_completed == old(interface).fence_completed,
        final(interface).resource_factory == old(interface).resource_factory,
        final(interface).history == old(interface).history,
        *final(resource) == (OpaqueResource { state: after, ..*old(resource) }),
{
    interface.record(
        GpuCommand::Transition { resource: resource.get_gpu_virtual_address(), before, after },
    );
    resource.state = after;
}

/// Recreates the swap chain's back buffers at the given extent; the old
/// pair is retired only after the caller has made the GPU idle.
fn resize_swap_chain(
    interface: &mut DeviceInterface,
    swap_chain: &mut SwapChain,
    width: u32,
    height: u32,
) -> (r: Result<(), AllocationError>)
    requires
        old(interface).wf(),
        old(swap_chain).wf(),
    ensures
        final(interface).wf(),
        final(interface).fence_completed == old(interface).fence_completed,
        final(interface).list_state == old(interface).list_state,
        final(interface).commands@ == old(interface).commands@,
        final(interface).history == old(interface).history,
        r is Ok <==> 1 <= texture_bytes(width, height) && old(
            interface,
        ).resource_factory.next_address + 2 * texture_bytes(width, height) <= u64::MAX,
        match r {
            Ok(()) => {
                &&& final(swap_chain).wf()
                &&& final(swap_chain).width == width
                &&& final(swap_chain).height == height
                &&& final(swap_chain).current_index == old(swap_chain).current_index
                &&& final(interface).resource_factory.live() == old(
                    interface,
                ).resource_factory.live()
                &&& final(interface).resource_factory.created == old(
                    interface,
                ).resource_factory.created + 2
                &&& final(interface).resource_factory.next_address == old(
                    interface,
                ).resource_factory.next_address + 2 * texture_bytes(width, height)
            },
            Err(e) => e == AllocationError && final(interface).resource_factory.live() == old(
                interface,
            ).resource_factory.live(),
        },
{
    let new_0 = match interface.resource_factory.create_texture_resource(
        width,
        height,
        ResourceFlags::NoFlags,
        ResourceState::Present,
    ) {
        Ok(resource) => resource,
        Err(e) => {
            return Err(e);
        },
    };
    let new_1 = match interface.resource_factory.create_texture_resource(
        width,
        height,
        ResourceFlags::NoFlags,
        ResourceState::Present,
    ) {
        Ok(resource) => resource,
        Err(e) => {
            interface.resource_factory.retire(new_0);
            return Err(e);
        },
    };
    interface.resource_factory.retire(swap_chain.back_buffer_0);
    interface.resource_factory.retire(swap_chain.back_buffer_1);
    swap_chain.back_buffer_0 = new_0;
    swap_chain.back_buffer_1 = new_1;
    swap_chain.width = width;
    swap_chain.height = height;
    Ok(())
}

/// The resize path shared by creation and every window-size change:
/// waits for the GPU to go idle so nothing in flight references what is
/// about to be destroyed, resizes the swap chain's back buffers to the
/// client area, and creates the UAV-writable render target at the same
/// extent, never smaller than one by one.
fn internal_resize(
    interface: &mut DeviceInterface,
    swap_chain: &mut SwapChain,
    rect: ClientRect,
) -> (r: Result<OpaqueResource, AllocationError>)
    requires
        old(interface).wf(),
        old(interface).fence_completed < u64::MAX,
        old(swap_chain).wf(),
    ensures
        final(interface).wf(),
        final(interface).fence_completed == old(interface).fence_completed + 1,
        final(interface).list_state == old(interface).list_state,
        final(interface).commands@ == old(interface).commands@,
        final(interface).history == old(interface).history,
        r is Ok <==> old(interface).resource_factory.next_address + 3 * texture_bytes(
            clamped_extent(rect.left as int, rect.right as int) as u32,
            clamped_extent(rect.top as int, rect.bottom as int) as u32,
        ) <= u64::MAX,
        match r {
            Ok(target) => {
                &&& target.wf()
                &&& target.state == ResourceState::UnorderedAccess
                &&& target.desc == (ResourceDesc {
                    dimension: ResourceDimension::Texture2d,
                    width: clamped_extent(rect.left as int, rect.right as int) as u64,
                    height: clamped_extent(rect.top as int, rect.bottom as int) as u32,
                    flags: ResourceFlags::AllowUnorderedAccess,
                })
                &&& final(swap_chain).wf()
                &&& final(swap_chain).width == clamped_extent(rect.left as int, rect.right as int)
                &&& final(swap_chain).height == clamped_extent(rect.top as int, rect.bottom as int)
                &&& final(swap_chain).current_index == old(swap_chain).current_index
                &&& final(interface).resource_factory.live() == old(
                    interface,
                ).resource_factory.live() + 1
            },
            Err(e) => e == AllocationError && final(interface).resource_factory.live() == old(
                interface,
            ).resource_factory.live(),
        },
{
    let width = client_extent(rect.left, rect.right);
    let height = client_extent(rect.top, rect.bottom);
    proof {
        assert(width == clamped_extent(rect.left as int, rect.right as int) as u32);
        assert(height == clamped_extent(rect.top as int, rect.bottom as int) as u32);
        assert(1 <= texture_bytes(width, height)) by (nonlinear_arith)
            requires
                1 <= width,
                1 <= height,
        ;
    }
    interface.wait_for_gpu();
    match resize_swap_chain(interface, swap_chain, width, height) {
        Ok(()) => (),
        Err(e) => {
            return Err(e);
        },
    }
    let target = match interface.resource_factory.create_texture_resource(
        width,
        height,
        ResourceFlags::AllowUnorderedAccess,
        ResourceState::UnorderedAccess,
    ) {
        Ok(resource) => resource,
        Err(e) => {
            return Err(e);
        },
    };
    Ok(target)
}

impl Surface {
    pub open spec fn wf(self) -> bool {
        &&& self.target.wf()
        &&& self.target.state == ResourceState::UnorderedAccess
        &&& self.target.desc.dimension is Texture2d
        &&& self.target.desc.flags == ResourceFlags::AllowUnorderedAccess
        &&& self.target.desc.width <= u32::MAX
        &&& self.swap_chain.wf()
        &&& self.swap_chain.width == self.target.desc.width
        &&& self.swap_chain.height == self.target.desc.height
        &&& self.uav_target == self.target.address
    }

    /// Creates the surface for a native window: the two-buffer swap
    /// chain, the single shader-visible descriptor-heap slot, and the
    /// first render target sized to the window's client area.  Fails
    /// exactly when the address space cannot hold the five equal-sized
    /// images the path allocates: the initial back-buffer pair, its
    /// replacement pair, and the target; everything a failed path had
    /// allocated is released again.
    pub fn from_handle(
        interface: &mut DeviceInterface,
        window: WindowHandle,
        rect: ClientRect,
    ) -> (r: Result<Surface, AllocationError>)
        requires
            old(interface).wf(),
            old(interface).fence_completed < u64::MAX,
        ensures
            final(interface).wf(),
            final(interface).fence_completed <= old(interface).fence_completed + 1,
            final(interface).list_state == old(interface).list_state,
            final(interface).commands@ == old(interface).commands@,
            final(interface).history == old(interface).history,
            r is Ok <==> old(interface).resource_factory.next_address + 5 * texture_bytes(
                clamped_extent(rect.left as int, rect.right as int) as u32,
                clamped_extent(rect.top as int, rect.bottom as int) as u32,
            ) <= u64::MAX,
            match r {
                Ok(surface) => {
                    &&& surface.wf()
                    &&& surface.window == window
                    &&& surface.target.desc.width == clamped_extent(
                        rect.left as int,
                        rect.right as int,
                    )
                    &&& surface.target.desc.height == clamped_extent(
                        rect.top as int,
                        rect.bottom as int,
                    )
                    &&& surface.swap_chain.current_index == 0
                    &&& final(interface).fence_completed == old(interface).fence_completed + 1
                    &&& final(interface).resource_factory.live() == old(
                        interface,
                    ).resource_factory.live() + 3
                },
                Err(e) => e == AllocationError && final(interface).resource_factory.live() == old(
                    interface,
                ).resource_factory.live(),
            },
    {
        let width = client_extent(rect.left, rect.right);
        let height = client_extent(rect.top, rect.bottom);
        proof {
            assert(width == clamped_extent(rect.left as int, rect.right as int) as u32);
            assert(height == clamped_extent(rect.top as int, rect.bottom as int) as u32);
            assert(1 <= texture_bytes(width, height)) by (nonlinear_arith)
                requires
                    1 <= width,
                    1 <= height,
            ;
        }
        let back_buffer_0 = match interface.resource_factory.create_texture_resource(
            width,
            height,
            ResourceFlags::NoFlags,
            ResourceState::Present,
        ) {
            Ok(resource) => resource,
            Err(e) => {
                return Err(e);
            },
        };
        let back_buffer_1 = match interface.resource_factory.create_texture_resource(
            width,
            height,
            ResourceFlags::NoFlags,
            ResourceState::Present,
        ) {
            Ok(resource) => resource,
            Err(e) => {
                interface.resource_factory.retire(back_buffer_0);
                return Err(e);
            },
        };
        let mut swap_chain = SwapChain {
            width,
            height,
            current_index: 0,
            back_buffer_0,
            back_buffer_1,
        };
        let target = match internal_resize(interface, &mut swap_chain, rect) {
            Ok(resource) => resource,
            Err(e) => {
                interface.resource_factory.retire(swap_chain.back_buffer_0);
                interface.resource_factory.retire(swap_chain.back_buffer_1);
                return Err(e);
            },
        };
        let uav_target = target.get_gpu_virtual_address();
        Ok(Surface { target, window, swap_chain, uav_target })
    }

    /// Recreates the render target for the window's current client
    /// area.  The GPU is made idle first, the old target is retired
    /// only then, and the resource count comes out unchanged: a resize
    /// never leaks the previous target.  Two resizes with the same
    /// client area yield targets of the same dimensions.
    pub fn resize(&mut self, interface: &mut DeviceInterface, rect: ClientRect) -> (r: Result<
        (),
        AllocationError,
    >)
        requires
            old(self).wf(),
            old(interface).wf(),
            old(interface).fence_completed < u64::MAX,
        ensures
            final(interface).wf(),
            final(interface).fence_completed == old(interface).fence_completed + 1,
            final(interface).list_state == old(interface).list_state,
            final(interface).commands@ == old(interface).commands@,
            final(interface).history == old(interface).history,
            r is Ok <==> old(interface).resource_factory.next_address + 3 * texture_bytes(
                clamped_extent(rect.left as int, rect.right as int) as u32,
                clamped_extent(rect.top as int, rect.bottom as int) as u32,
            ) <= u64::MAX,
            match r {
                Ok(()) => {
                    &&& final(self).wf()
                    &&& final(self).window == old(self).window
                    &&& final(self).target.desc.width == clamped_extent(
                        rect.left as int,
                        rect.right as int,
                    )
                    &&& final(self).target.desc.height == clamped_extent(
                        rect.top as int,
                        rect.bottom as int,
                    )
                    &&& final(self).swap_chain.current_index == old(self).swap_chain.current_index
                    &&& final(interface).resource_factory.live() == old(
                        interface,
                    ).resource_factory.live()
                },
                Err(e) => e == AllocationError && final(interface).resource_factory.live() == old(
                    interface,
                ).resource_factory.live(),
            },
    {
        let target = match internal_resize(interface, &mut self.swap_chain, rect) {
            Ok(resource) => resource,
            Err(e) => {
                return Err(e);
            },
        };
        interface.resource_factory.retire(self.target);
        self.target = target;
        self.uav_target = self.target.get_gpu_virtual_address();
        Ok(())
    }

    /// Binds the surface for the coming dispatch: sets the single-entry
    /// shader-visible descriptor heap and writes its UAV table into the
    /// pipeline's descriptor-table root parameter, then reports the
    /// target's description so the dispatch can be sized to it.
    pub fn bind(&self, interface: &mut DeviceInterface) -> (r: ResourceDesc)
        requires
            old(interface).recording(),
        ensures
            r == self.target.desc,
            final(interface).recording(),
            final(interface).commands@ == old(interface).commands@ + seq![
                GpuCommand::SetDescriptorHeaps,
                GpuCommand::SetComputeRootDescriptorTable { parameter: 0 },
            ],
            final(interface).fence_completed == old(interface).fence_completed,
            final(interface).resource_factory == old(interface).resource_factory,
            final(interface).history == old(interface).history,
    {
        interface.record(GpuCommand::SetDescriptorHeaps);
        interface.record(GpuCommand::SetComputeRootDescriptorTable { parameter: 0 });
        proof {
            assert(interface.commands@ =~= old(interface).commands@ + seq![
                GpuCommand::SetDescriptorHeaps,
                GpuCommand::SetComputeRootDescriptorTable { parameter: 0 },
            ]);
        }
        self.target.get_desc()
    }

    /// Carries the finished frame to the screen: records the exact
    /// five-step barrier-and-copy sequence, submits the whole recording,
    /// waits for the GPU, and presents, flipping to the other back
    /// buffer.  The returned sequence is everything this frame executed.
    pub fn present(&mut self, interface: &mut DeviceInterface) -> (executed: Vec<GpuCommand>)
        requires
            old(self).wf(),
            old(interface).recording(),
            old(interface).fence_completed < u64::MAX,
        ensures
            executed@ == old(interface).commands@ + present_commands(*old(self)),
            final(self).wf(),
            final(self).target == old(self).target,
            final(self).window == old(self).window,
            final(self).uav_target == old(self).uav_target,
            final(self).swap_chain.width == old(self).swap_chain.width,
            final(self).swap_chain.height == old(self).swap_chain.height,
            final(self).swap_chain.back_buffer_0 == old(self).swap_chain.back_buffer_0,
            final(self).swap_chain.back_buffer_1 == old(self).swap_chain.back_buffer_1,
            final(self).swap_chain.current_index == 1 - old(self).swap_chain.current_index,
            !final(interface).recording(),
            final(interface).commands@ == Seq::<GpuCommand>::empty(),
            final(interface).fence_completed == old(interface).fence_completed + 1,
            final(interface).resource_factory == old(interface).resource_factory,
            final(interface).history@ == old(interface).history@ + old(interface).commands@
                + present_commands(*old(self)),
    {
        let index = self.swap_chain.current_index;
        let mut back_buffer = if index == 0 {
            self.swap_chain.back_buffer_0
        } else {
            self.swap_chain.back_buffer_1
        };
        barrier(
            interface,
            &mut self.target,
            ResourceState::UnorderedAccess,
            ResourceState::CopySource,
        );
        barrier(interface, &mut back_buffer, ResourceState::Present, ResourceState::CopyDest);
        interface.record(
            GpuCommand::CopyResource {
                dest: back_buffer.get_gpu_virtual_address(),
                source: self.target.get_gpu_virtual_address(),
            },
        );
        barrier(interface, &mut back_buffer, ResourceState::CopyDest, ResourceState::Present);
        barrier(
            interface,
            &mut self.target,
            ResourceState::CopySource,
            ResourceState::UnorderedAccess,
        );
        if index == 0 {
            self.swap_chain.back_buffer_0 = back_buffer;
        } else {
            self.swap_chain.back_buffer_1 = back_buffer;
        }
        let executed = interface.close_and_execute();
        interface.wait_for_gpu();
        self.swap_chain.current_index = 1 - index;
        proof {
            assert(executed@ =~= old(interface).commands@ + present_commands(*old(self)));
            assert(interface.history@ =~= old(interface).history@ + old(interface).commands@
                + present_commands(*old(self)));
        }
        executed
    }
}

} // verus!
