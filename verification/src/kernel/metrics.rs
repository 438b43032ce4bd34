//! Size and capacity metrics of the kernel's fixed tables and wire formats, and the sample
//! values of the swarm demonstration.
use vstd::prelude::*;
use crate::choreography::protocol::WASIP1_STREAM_CHUNK_CAPACITY;
use crate::kernel::device::timer::TimerSleepTable;
use crate::kernel::mgmt::{ImageSlotTable, ManagementRejectionTelemetry};
use crate::kernel::network::{
    NET_DATAGRAM_PAYLOAD_CAPACITY, NET_STREAM_PAYLOAD_CAPACITY, NetworkObjectRejectionTelemetry, NetworkObjectTable,
};
use crate::kernel::remote::{RemoteObjectTable, RemoteRejectionTelemetry};
use crate::kernel::resolver::{PicoInterruptResolver, ResolverRejectionTelemetry};
use crate::kernel::swarm::{
    HostSwarmMedium, HostSwarmRoleTransport, NeighborTable, ReplayWindow, SWARM_AUTH_TAG_LEN,
    SWARM_FRAGMENT_CHUNK_CAPACITY, SWARM_FRAGMENT_HEADER_LEN, SWARM_FRAME_HEADER_LEN, SWARM_FRAME_MAX_WIRE_LEN,
    SWARM_FRAME_PAYLOAD_CAPACITY, SwarmDropTelemetry, SwarmFrame, SwarmReassemblyBuffer,
};
use crate::kernel::wasi::{
    MemoryLeaseRejectionTelemetry, MemoryLeaseTable, PicoFdRejectionTelemetry, PicoFdView,
    WASIP1_STATIC_ARG_BYTES_CAPACITY, WASIP1_STATIC_ARGS_CAPACITY, WASIP1_STATIC_ENV_BYTES_CAPACITY,
    WASIP1_STATIC_ENV_CAPACITY, Wasip1StaticArgEnv,
};
use crate::machine::rp2350::cyw43439::{QEMU_CYW43439_MAX_ROLES, QemuCyw43439Transport};
use crate::port::host_queue::{FrameOwned, PAYLOAD_CAPACITY, QUEUE_CAPACITY, ROLE_CAPACITY};

verus! {

pub const DEFAULT_TABLE_SLOTS: usize = 8;
pub const DEFAULT_IMAGE_SLOTS: usize = 2;
pub const DEFAULT_IMAGE_SLOT_BYTES: usize = 512;
pub const WASIP1_FULL_SUBSET_IMPORT_COUNT: usize = 46;
pub const PICO2W_SWARM_MIN_NODES: u8 = 2;
/// One node per role the radio transport can map.
pub const PICO2W_SWARM_DEFAULT_NODES: u8 = 6;
/// Every node but the coordinator is a sensor.
pub const PICO2W_SWARM_DEFAULT_SENSOR_NODES: u8 = 5;
pub const PICO2W_SWARM_BASE_SAMPLE_VALUE: u32 = 0x0000_a5a5;
pub const PICO2W_SWARM_PING_PONG_NODES: usize = 2;
pub const PICO2W_SWARM_PING_PONG_MESSAGES: usize = 2;
pub const PICO2W_SWARM_REMOTE_FD_READ_MESSAGES: usize = 2;
pub const PICO2W_SWARM_REMOTE_ACTUATE_MESSAGES: usize = 2;
pub const PICO2W_SWARM_PACKET_LOSS_REDELIVERY_FRAMES: usize = 1;
pub const PICO2W_SWARM_JOIN_MESSAGES: usize = 4;
pub const PICO2W_SWARM_LEAVE_REVOKE_MESSAGES: usize = 4;
/// The sum of the samples of the default swarm's sensor nodes.
pub const PICO2W_SWARM_DEFAULT_AGGREGATE: u32 = 212_035;

/// The sample node `node_id` reports: the base value plus how far the node is past the first sensor.
pub open spec fn spec_sample_value(node_id: u16) -> int {
    PICO2W_SWARM_BASE_SAMPLE_VALUE + if node_id > PICO2W_SWARM_MIN_NODES {
        node_id - PICO2W_SWARM_MIN_NODES
    } else {
        0
    }
}

/// The sum of the samples of nodes `PICO2W_SWARM_MIN_NODES` up to `last`.
pub open spec fn spec_aggregate(last: int) -> int
    decreases last,
{
    if last < PICO2W_SWARM_MIN_NODES {
        0
    } else {
        spec_aggregate(last - 1) + spec_sample_value(last as u16)
    }
}

pub fn pico2w_swarm_sample_value(node_id: u16) -> (out: u32)
    ensures
        out == spec_sample_value(node_id),
{
    let offset: u16 = if node_id > PICO2W_SWARM_MIN_NODES as u16 {
        node_id - PICO2W_SWARM_MIN_NODES as u16
    } else {
        0
    };
    PICO2W_SWARM_BASE_SAMPLE_VALUE.wrapping_add(offset as u32)
}

proof fn lemma_aggregate_bound(last: int)
    requires
        last <= 255,
    ensures
        0 <= spec_aggregate(last) <= (if last < 0 { 0 } else { last }) * 0xa6a5,
    decreases last,
{
    if last >= PICO2W_SWARM_MIN_NODES {
        lemma_aggregate_bound(last - 1);
    }
}

/// The sum of the samples of a swarm of `node_count` nodes. (A count of 255 never ends: the
/// node counter saturates there.)
pub fn pico2w_swarm_expected_aggregate(node_count: u8) -> (out: u32)
    requires
        node_count < 255,
    ensures
        out == spec_aggregate(node_count as int),
{
    let mut sum: u32 = 0;
    let mut node: u8 = PICO2W_SWARM_MIN_NODES;
    while node <= node_count
        invariant
            node_count < 255,
            PICO2W_SWARM_MIN_NODES <= node,
            node <= node_count + 1 || node == PICO2W_SWARM_MIN_NODES,
            sum == spec_aggregate(node - 1),
        decreases 256 - node,
    {
        proof {
            lemma_aggregate_bound(node as int);
        }
        sum = sum.wrapping_add(pico2w_swarm_sample_value(node as u16));
        node = node.saturating_add(1);
    }
    proof {
        if node_count < PICO2W_SWARM_MIN_NODES {
            assert(spec_aggregate(node_count as int) == 0);
            assert(spec_aggregate(node - 1) == 0);
        }
    }
    sum
}

/// The default aggregate is the sum of the default swarm's samples.
pub proof fn lemma_default_aggregate()
    ensures
        PICO2W_SWARM_DEFAULT_AGGREGATE == spec_aggregate(PICO2W_SWARM_DEFAULT_NODES as int),
        PICO2W_SWARM_DEFAULT_NODES == QEMU_CYW43439_MAX_ROLES,
        PICO2W_SWARM_DEFAULT_SENSOR_NODES == PICO2W_SWARM_DEFAULT_NODES - 1,
{
    reveal_with_fuel(spec_aggregate, 6);
}

/// Sizes and capacities of one node's kernel tables.
#[derive(Clone, Copy, Debug, PartialEq, Eq, Structural)]
pub struct SingleNodeMetrics {
    pub sio_role_capacity: usize,
    pub sio_queue_capacity: usize,
    pub sio_frame_payload_capacity: usize,
    pub sio_frame_size: usize,
    pub syscall_buffer_capacity: usize,
    pub timer_table_size: usize,
    pub interrupt_resolver_size: usize,
    pub interrupt_resolver_rejection_telemetry_size: usize,
    pub memory_lease_table_size: usize,
    pub memory_lease_rejection_telemetry_size: usize,
    pub pico_fd_view_size: usize,
    pub pico_fd_rejection_telemetry_size: usize,
    pub endpoint_size: usize,
    pub role_program_size: usize,
    pub static_arg_env_size: usize,
    pub image_slot_table_size: usize,
    pub management_rejection_telemetry_size: usize,
}

/// The choreography runtime's session endpoint of a role, `hibana::Endpoint`, known here only
/// by its size.
#[verifier::external_type_specification]
#[verifier::external_body]
pub struct ExEndpoint<'r, const ROLE: u8>(hibana::Endpoint<'r, ROLE>);

/// The choreography runtime's projected role program,
/// `hibana::runtime::program::RoleProgram`, known here only by its size.
#[verifier::external_type_specification]
#[verifier::external_body]
pub struct ExRoleProgram<const ROLE: u8>(hibana::runtime::program::RoleProgram<ROLE>);

impl SingleNodeMetrics {
    pub fn collect() -> (out: Self)
        ensures
            out.sio_role_capacity == ROLE_CAPACITY,
            out.sio_queue_capacity == QUEUE_CAPACITY,
            out.sio_frame_payload_capacity == PAYLOAD_CAPACITY,
            out.sio_frame_size == vstd::layout::size_of::<FrameOwned>(),
            out.syscall_buffer_capacity == WASIP1_STREAM_CHUNK_CAPACITY,
            out.timer_table_size == vstd::layout::size_of::<TimerSleepTable<DEFAULT_TABLE_SLOTS>>(),
            out.interrupt_resolver_size == vstd::layout::size_of::<PicoInterruptResolver<4, 8, 4>>(),
            out.interrupt_resolver_rejection_telemetry_size == vstd::layout::size_of::<ResolverRejectionTelemetry>(),
            out.memory_lease_table_size == vstd::layout::size_of::<MemoryLeaseTable<DEFAULT_TABLE_SLOTS>>(),
            out.memory_lease_rejection_telemetry_size == vstd::layout::size_of::<MemoryLeaseRejectionTelemetry>(),
            out.pico_fd_view_size == vstd::layout::size_of::<PicoFdView<DEFAULT_TABLE_SLOTS>>(),
            out.pico_fd_rejection_telemetry_size == vstd::layout::size_of::<PicoFdRejectionTelemetry>(),
            out.endpoint_size == vstd::layout::size_of::<hibana::Endpoint<'static, 0>>(),
            out.role_program_size == vstd::layout::size_of::<hibana::runtime::program::RoleProgram<0>>(),
            out.static_arg_env_size == vstd::layout::size_of::<Wasip1StaticArgEnv<'static>>(),
            out.image_slot_table_size == vstd::layout::size_of::<
                ImageSlotTable<DEFAULT_IMAGE_SLOTS, DEFAULT_IMAGE_SLOT_BYTES>,
            >(),
            out.management_rejection_telemetry_size == vstd::layout::size_of::<ManagementRejectionTelemetry>(),
    {
        SingleNodeMetrics {
            sio_role_capacity: ROLE_CAPACITY,
            sio_queue_capacity: QUEUE_CAPACITY,
            sio_frame_payload_capacity: PAYLOAD_CAPACITY,
            sio_frame_size: core::mem::size_of::<FrameOwned>(),
            syscall_buffer_capacity: WASIP1_STREAM_CHUNK_CAPACITY,
            timer_table_size: core::mem::size_of::<TimerSleepTable<DEFAULT_TABLE_SLOTS>>(),
            interrupt_resolver_size: core::mem::size_of::<PicoInterruptResolver<4, 8, 4>>(),
            interrupt_resolver_rejection_telemetry_size: core::mem::size_of::<ResolverRejectionTelemetry>(),
            memory_lease_table_size: core::mem::size_of::<MemoryLeaseTable<DEFAULT_TABLE_SLOTS>>(),
            memory_lease_rejection_telemetry_size: core::mem::size_of::<MemoryLeaseRejectionTelemetry>(),
            pico_fd_view_size: core::mem::size_of::<PicoFdView<DEFAULT_TABLE_SLOTS>>(),
            pico_fd_rejection_telemetry_size: core::mem::size_of::<PicoFdRejectionTelemetry>(),
            endpoint_size: core::mem::size_of::<hibana::Endpoint<'static, 0>>(),
            role_program_size: core::mem::size_of::<hibana::runtime::program::RoleProgram<0>>(),
            static_arg_env_size: core::mem::size_of::<Wasip1StaticArgEnv<'static>>(),
            image_slot_table_size: core::mem::size_of::<ImageSlotTable<DEFAULT_IMAGE_SLOTS, DEFAULT_IMAGE_SLOT_BYTES>>(),
            management_rejection_telemetry_size: core::mem::size_of::<ManagementRejectionTelemetry>(),
        }
    }
}

/// Sizes, capacities and message counts of the swarm.
#[derive(Clone, Copy, Debug, PartialEq, Eq, Structural)]
pub struct SwarmMetrics {
    pub wifi_frame_header_len: usize,
    pub wifi_frame_payload_capacity: usize,
    pub wifi_auth_tag_len: usize,
    pub wifi_frame_max_wire_len: usize,
    pub wifi_frame_size: usize,
    pub fragmentation_header_len: usize,
    pub fragmentation_chunk_capacity: usize,
    pub fragmentation_buffer_size: usize,
    pub qemu_cyw_max_roles: usize,
    pub qemu_cyw_transport_size: usize,
    pub host_swarm_medium_size: usize,
    pub host_swarm_role_transport_size: usize,
    pub neighbor_table_size: usize,
    pub remote_object_table_size: usize,
    pub remote_object_rejection_telemetry_size: usize,
    pub replay_window_size: usize,
    pub swarm_drop_telemetry_size: usize,
    pub wifi_ping_pong_nodes: usize,
    pub wifi_ping_pong_messages: usize,
    pub remote_fd_read_messages: usize,
    pub remote_actuator_command_messages: usize,
    pub packet_loss_redelivery_frames: usize,
    pub provisioning_join_messages: usize,
    pub leave_revoke_messages: usize,
    pub qemu_swarm_default_nodes: usize,
    pub qemu_swarm_default_sensor_nodes: usize,
    pub qemu_swarm_sample_count: usize,
    pub qemu_swarm_wasip1_fd_write_count: usize,
    pub qemu_swarm_aggregate_ack_count: usize,
    pub qemu_swarm_base_sample_value: u32,
    pub qemu_swarm_default_aggregate: u32,
}

impl SwarmMetrics {
    pub fn collect() -> (out: Self)
        ensures
            out.wifi_frame_header_len == SWARM_FRAME_HEADER_LEN,
            out.wifi_frame_payload_capacity == SWARM_FRAME_PAYLOAD_CAPACITY,
            out.wifi_auth_tag_len == SWARM_AUTH_TAG_LEN,
            out.wifi_frame_max_wire_len == SWARM_FRAME_MAX_WIRE_LEN,
            out.wifi_frame_size == vstd::layout::size_of::<SwarmFrame>(),
            out.fragmentation_header_len == SWARM_FRAGMENT_HEADER_LEN,
            out.fragmentation_chunk_capacity == SWARM_FRAGMENT_CHUNK_CAPACITY,
            out.fragmentation_buffer_size == vstd::layout::size_of::<SwarmReassemblyBuffer<256, 4>>(),
            out.qemu_cyw_max_roles == QEMU_CYW43439_MAX_ROLES,
            out.qemu_cyw_transport_size == vstd::layout::size_of::<QemuCyw43439Transport>(),
            out.host_swarm_medium_size == vstd::layout::size_of::<HostSwarmMedium<DEFAULT_TABLE_SLOTS>>(),
            out.host_swarm_role_transport_size == vstd::layout::size_of::<
                HostSwarmRoleTransport<DEFAULT_TABLE_SLOTS, QEMU_CYW43439_MAX_ROLES>,
            >(),
            out.neighbor_table_size == vstd::layout::size_of::<NeighborTable<DEFAULT_TABLE_SLOTS>>(),
            out.remote_object_table_size == vstd::layout::size_of::<RemoteObjectTable<DEFAULT_TABLE_SLOTS>>(),
            out.remote_object_rejection_telemetry_size == vstd::layout::size_of::<RemoteRejectionTelemetry>(),
            out.replay_window_size == vstd::layout::size_of::<ReplayWindow>(),
            out.swarm_drop_telemetry_size == vstd::layout::size_of::<SwarmDropTelemetry>(),
            out.wifi_ping_pong_nodes == PICO2W_SWARM_PING_PONG_NODES,
            out.wifi_ping_pong_messages == PICO2W_SWARM_PING_PONG_MESSAGES,
            out.remote_fd_read_messages == PICO2W_SWARM_REMOTE_FD_READ_MESSAGES,
            out.remote_actuator_command_messages == PICO2W_SWARM_REMOTE_ACTUATE_MESSAGES,
            out.packet_loss_redelivery_frames == PICO2W_SWARM_PACKET_LOSS_REDELIVERY_FRAMES,
            out.provisioning_join_messages == PICO2W_SWARM_JOIN_MESSAGES,
            out.leave_revoke_messages == PICO2W_SWARM_LEAVE_REVOKE_MESSAGES,
            out.qemu_swarm_default_nodes == PICO2W_SWARM_DEFAULT_NODES,
            out.qemu_swarm_default_sensor_nodes == PICO2W_SWARM_DEFAULT_SENSOR_NODES,
            out.qemu_swarm_sample_count == PICO2W_SWARM_DEFAULT_SENSOR_NODES,
            out.qemu_swarm_wasip1_fd_write_count == PICO2W_SWARM_DEFAULT_SENSOR_NODES,
            out.qemu_swarm_aggregate_ack_count == PICO2W_SWARM_DEFAULT_SENSOR_NODES,
            out.qemu_swarm_base_sample_value == PICO2W_SWARM_BASE_SAMPLE_VALUE,
            out.qemu_swarm_default_aggregate == PICO2W_SWARM_DEFAULT_AGGREGATE,
    {
        SwarmMetrics {
            wifi_frame_header_len: SWARM_FRAME_HEADER_LEN,
            wifi_frame_payload_capacity: SWARM_FRAME_PAYLOAD_CAPACITY,
            wifi_auth_tag_len: SWARM_AUTH_TAG_LEN,
            wifi_frame_max_wire_len: SWARM_FRAME_MAX_WIRE_LEN,
            wifi_frame_size: core::mem::size_of::<SwarmFrame>(),
            fragmentation_header_len: SWARM_FRAGMENT_HEADER_LEN,
            fragmentation_chunk_capacity: SWARM_FRAGMENT_CHUNK_CAPACITY,
            fragmentation_buffer_size: core::mem::size_of::<SwarmReassemblyBuffer<256, 4>>(),
            qemu_cyw_max_roles: QEMU_CYW43439_MAX_ROLES,
            qemu_cyw_transport_size: core::mem::size_of::<QemuCyw43439Transport>(),
            host_swarm_medium_size: core::mem::size_of::<HostSwarmMedium<DEFAULT_TABLE_SLOTS>>(),
            host_swarm_role_transport_size: core::mem::size_of::<
                HostSwarmRoleTransport<DEFAULT_TABLE_SLOTS, QEMU_CYW43439_MAX_ROLES>,
            >(),
            neighbor_table_size: core::mem::size_of::<NeighborTable<DEFAULT_TABLE_SLOTS>>(),
            remote_object_table_size: core::mem::size_of::<RemoteObjectTable<DEFAULT_TABLE_SLOTS>>(),
            remote_object_rejection_telemetry_size: core::mem::size_of::<RemoteRejectionTelemetry>(),
            replay_window_size: core::mem::size_of::<ReplayWindow>(),
            swarm_drop_telemetry_size: core::mem::size_of::<SwarmDropTelemetry>(),
            wifi_ping_pong_nodes: PICO2W_SWARM_PING_PONG_NODES,
            wifi_ping_pong_messages: PICO2W_SWARM_PING_PONG_MESSAGES,
            remote_fd_read_messages: PICO2W_SWARM_REMOTE_FD_READ_MESSAGES,
            remote_actuator_command_messages: PICO2W_SWARM_REMOTE_ACTUATE_MESSAGES,
            packet_loss_redelivery_frames: PICO2W_SWARM_PACKET_LOSS_REDELIVERY_FRAMES,
            provisioning_join_messages: PICO2W_SWARM_JOIN_MESSAGES,
            leave_revoke_messages: PICO2W_SWARM_LEAVE_REVOKE_MESSAGES,
            qemu_swarm_default_nodes: PICO2W_SWARM_DEFAULT_NODES as usize,
            qemu_swarm_default_sensor_nodes: PICO2W_SWARM_DEFAULT_SENSOR_NODES as usize,
            qemu_swarm_sample_count: PICO2W_SWARM_DEFAULT_SENSOR_NODES as usize,
            qemu_swarm_wasip1_fd_write_count: PICO2W_SWARM_DEFAULT_SENSOR_NODES as usize,
            qemu_swarm_aggregate_ack_count: PICO2W_SWARM_DEFAULT_SENSOR_NODES as usize,
            qemu_swarm_base_sample_value: PICO2W_SWARM_BASE_SAMPLE_VALUE,
            qemu_swarm_default_aggregate: PICO2W_SWARM_DEFAULT_AGGREGATE,
        }
    }
}

/// Capacities of the Preview 1 surface, and the Preview 2 machinery that is absent.
#[derive(Clone, Copy, Debug, PartialEq, Eq, Structural)]
pub struct NoP2Metrics {
    pub wasip1_full_subset_import_count: usize,
    pub wasip1_static_args_capacity: usize,
    pub wasip1_static_env_capacity: usize,
    pub wasip1_static_arg_bytes_capacity: usize,
    pub wasip1_static_env_bytes_capacity: usize,
    pub network_object_table_size: usize,
    pub network_object_rejection_telemetry_size: usize,
    pub network_datagram_payload_capacity: usize,
    pub network_stream_payload_capacity: usize,
    pub component_model_loader_bytes: usize,
    pub wit_runtime_table_bytes: usize,
    pub p2_resource_table_bytes: usize,
}

impl NoP2Metrics {
    pub fn collect() -> (out: Self)
        ensures
            out.wasip1_full_subset_import_count == WASIP1_FULL_SUBSET_IMPORT_COUNT,
            out.wasip1_static_args_capacity == WASIP1_STATIC_ARGS_CAPACITY,
            out.wasip1_static_env_capacity == WASIP1_STATIC_ENV_CAPACITY,
            out.wasip1_static_arg_bytes_capacity == WASIP1_STATIC_ARG_BYTES_CAPACITY,
            out.wasip1_static_env_bytes_capacity == WASIP1_STATIC_ENV_BYTES_CAPACITY,
            out.network_object_table_size == vstd::layout::size_of::<NetworkObjectTable<DEFAULT_TABLE_SLOTS>>(),
            out.network_object_rejection_telemetry_size == vstd::layout::size_of::<NetworkObjectRejectionTelemetry>(),
            out.network_datagram_payload_capacity == NET_DATAGRAM_PAYLOAD_CAPACITY,
            out.network_stream_payload_capacity == NET_STREAM_PAYLOAD_CAPACITY,
            out.component_model_loader_bytes == 0,
            out.wit_runtime_table_bytes == 0,
            out.p2_resource_table_bytes == 0,
    {
        NoP2Metrics {
            wasip1_full_subset_import_count: WASIP1_FULL_SUBSET_IMPORT_COUNT,
            wasip1_static_args_capacity: WASIP1_STATIC_ARGS_CAPACITY,
            wasip1_static_env_capacity: WASIP1_STATIC_ENV_CAPACITY,
            wasip1_static_arg_bytes_capacity: WASIP1_STATIC_ARG_BYTES_CAPACITY,
            wasip1_static_env_bytes_capacity: WASIP1_STATIC_ENV_BYTES_CAPACITY,
            network_object_table_size: core::mem::size_of::<NetworkObjectTable<DEFAULT_TABLE_SLOTS>>(),
            network_object_rejection_telemetry_size: core::mem::size_of::<NetworkObjectRejectionTelemetry>(),
            network_datagram_payload_capacity: NET_DATAGRAM_PAYLOAD_CAPACITY,
            network_stream_payload_capacity: NET_STREAM_PAYLOAD_CAPACITY,
            component_model_loader_bytes: 0,
            wit_runtime_table_bytes: 0,
            p2_resource_table_bytes: 0,
        }
    }
}

} // verus!
