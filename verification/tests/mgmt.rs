use hibana_pico::choreography::protocol::{
    MGMT_IMAGE_CHUNK_CAPACITY, MgmtImageActivate, MgmtImageBegin, MgmtImageChunk, MgmtImageEnd, MgmtImageRollback,
    MgmtStatusCode,
};
use hibana_pico::kernel::mgmt::{ActivationBoundary, ImageSlotError, ImageSlotTable, ImageTransferPlan, MgmtControl};
use hibana_pico::kernel::swarm::{NodeId, SwarmCredential};

const WASIP1_STDOUT_GUEST: &[u8] =
    b"\0asm\x01\0\0\0wasi_snapshot_preview1 fd_write hibana wasip1 stdout\n";
const WASIP1_STDERR_GUEST: &[u8] =
    b"\0asm\x01\0\0\0wasi_snapshot_preview1 fd_write hibana wasip1 stderr\n";

fn install_image<const CAP: usize>(
    table: &mut ImageSlotTable<2, CAP>,
    slot: u8,
    generation: u32,
    image: &[u8],
) {
    let plan = ImageTransferPlan::new(image.len()).expect("plan image transfer");
    table
        .begin(MgmtImageBegin::new(slot, plan.total_len(), generation))
        .expect("begin image");
    for index in 0..plan.chunk_count() {
        let (offset, end) = plan.chunk_range(index).expect("image chunk range");
        table
            .chunk(
                &MgmtImageChunk::new(slot, offset as u32, &image[offset..end])
                    .expect("image chunk"),
            )
            .expect("append chunk");
    }
    table
        .end(MgmtImageEnd::new(slot, plan.total_len()))
        .expect("end image");
}

#[test]
fn image_transfer_plan_bounds_chunk_ranges() {
    let plan =
        ImageTransferPlan::new(MGMT_IMAGE_CHUNK_CAPACITY * 2 + 7).expect("plan transfer");
    assert_eq!(plan.total_len(), 71);
    assert_eq!(plan.chunk_count(), 3);
    assert_eq!(plan.last_chunk_len(), 7);
    assert_eq!(plan.chunk_range(0), Ok((0, MGMT_IMAGE_CHUNK_CAPACITY)));
    assert_eq!(
        plan.chunk_range(1),
        Ok((MGMT_IMAGE_CHUNK_CAPACITY, MGMT_IMAGE_CHUNK_CAPACITY * 2))
    );
    assert_eq!(
        plan.chunk_range(2),
        Ok((
            MGMT_IMAGE_CHUNK_CAPACITY * 2,
            MGMT_IMAGE_CHUNK_CAPACITY * 2 + 7
        ))
    );
    assert_eq!(plan.chunk_range(3), Err(ImageSlotError::BadChunkIndex));
    assert_eq!(
        ImageTransferPlan::new(0),
        Err(ImageSlotError::LengthMismatch)
    );
}

#[test]
fn image_slot_installs_valid_module_and_requires_fence_to_activate() {
    let mut table: ImageSlotTable<2, 131_072> = ImageSlotTable::new();
    install_image(&mut table, 0, 1, WASIP1_STDOUT_GUEST);
    assert!(table.slot(0).expect("slot").is_valid());

    assert_eq!(
        table.activate_at_boundary(
            MgmtImageActivate::new(0, 2),
            ActivationBoundary::single_node(false, true, 1)
        ),
        Err(ImageSlotError::NeedFence)
    );
    table
        .activate_at_boundary(
            MgmtImageActivate::new(0, 2),
            ActivationBoundary::single_node(true, true, 2),
        )
        .expect("activate image");
    assert_eq!(table.active_slot(), Some(0));
}

#[test]
fn image_activation_boundary_requires_interrupt_and_remote_quiescence() {
    let mut table: ImageSlotTable<2, 131_072> = ImageSlotTable::new();
    install_image(&mut table, 0, 1, WASIP1_STDOUT_GUEST);
    let activate = MgmtImageActivate::new(0, 2);

    assert_eq!(
        table.activate_at_boundary(activate, ActivationBoundary::new(true, false, true, 2)),
        Err(ImageSlotError::NeedFence)
    );
    assert_eq!(
        table.activate_at_boundary(activate, ActivationBoundary::new(true, true, false, 2)),
        Err(ImageSlotError::NeedFence)
    );
    assert_eq!(
        table.activate_at_boundary(activate, ActivationBoundary::new(true, true, true, 1)),
        Err(ImageSlotError::BadFenceEpoch)
    );
    table
        .activate_at_boundary(activate, ActivationBoundary::new(true, true, true, 2))
        .expect("activate after every boundary is quiesced");
    assert_eq!(table.active_slot(), Some(0));
    let telemetry = table.rejection_telemetry();
    assert_eq!(telemetry.need_fence(), 2);
    assert_eq!(telemetry.bad_fence_epoch(), 1);
    assert_eq!(telemetry.total(), 3);
}

#[test]
fn authenticated_management_install_rejects_forged_or_stale_grants() {
    let mut table: ImageSlotTable<2, 131_072> = ImageSlotTable::new();
    let node = NodeId::new(7);
    let credential = SwarmCredential::new(0x4849_4241);
    let begin = MgmtImageBegin::new(0, WASIP1_STDOUT_GUEST.len() as u32, 41);
    let grant =
        MgmtControl::install_grant(node, credential, 9, begin.slot(), begin.generation());

    assert_eq!(
        table.begin_with_control(
            MgmtControl::install_grant(node, credential, 8, begin.slot(), begin.generation()),
            node,
            credential,
            9,
            begin,
        ),
        Err(ImageSlotError::BadSessionGeneration)
    );
    assert_eq!(
        ImageSlotError::BadSessionGeneration
            .status(begin.slot())
            .code(),
        MgmtStatusCode::BadSessionGeneration
    );

    assert_eq!(
        table.begin_with_control(
            MgmtControl::install_grant(
                node,
                SwarmCredential::new(0x5752_4f4e),
                9,
                begin.slot(),
                begin.generation(),
            ),
            node,
            credential,
            9,
            begin,
        ),
        Err(ImageSlotError::AuthFailed)
    );
    assert_eq!(
        ImageSlotError::AuthFailed.status(begin.slot()).code(),
        MgmtStatusCode::AuthFailed
    );
    assert_eq!(
        table.begin_with_control(
            MgmtControl::install_grant(node, credential, 9, 1, begin.generation()),
            node,
            credential,
            9,
            begin,
        ),
        Err(ImageSlotError::AuthFailed)
    );

    table
        .begin_with_control(grant, node, credential, 9, begin)
        .expect("authorized image begin");
    let plan = ImageTransferPlan::new(WASIP1_STDOUT_GUEST.len()).expect("image plan");
    let (offset, end) = plan.chunk_range(0).expect("first chunk range");
    let chunk = MgmtImageChunk::new(0, offset as u32, &WASIP1_STDOUT_GUEST[offset..end])
        .expect("image chunk");
    assert_eq!(
        table.chunk_with_control(
            MgmtControl::install_grant(
                node,
                SwarmCredential::new(0x5752_4f4e),
                9,
                0,
                begin.generation(),
            ),
            node,
            credential,
            9,
            &chunk,
        ),
        Err(ImageSlotError::AuthFailed)
    );
    table
        .chunk_with_control(grant, node, credential, 9, &chunk)
        .expect("authorized image chunk");
    for index in 1..plan.chunk_count() {
        let (offset, end) = plan.chunk_range(index).expect("chunk range");
        table
            .chunk_with_control(
                grant,
                node,
                credential,
                9,
                &MgmtImageChunk::new(0, offset as u32, &WASIP1_STDOUT_GUEST[offset..end])
                    .expect("image chunk"),
            )
            .expect("authorized image chunk");
    }
    table
        .end_with_control(
            grant,
            node,
            credential,
            9,
            MgmtImageEnd::new(0, WASIP1_STDOUT_GUEST.len() as u32),
        )
        .expect("authorized image end");

    let activate = MgmtImageActivate::new(0, 2);
    assert_eq!(
        table.activate_with_control(
            MgmtControl::install_grant(
                node,
                SwarmCredential::new(0x5752_4f4e),
                9,
                0,
                begin.generation(),
            ),
            node,
            credential,
            9,
            activate,
            ActivationBoundary::single_node(true, true, 2),
        ),
        Err(ImageSlotError::AuthFailed)
    );
    table
        .activate_with_control(
            grant,
            node,
            credential,
            9,
            activate,
            ActivationBoundary::single_node(true, true, 2),
        )
        .expect("authorized activation");
    assert_eq!(table.active_slot(), Some(0));
    let telemetry = table.rejection_telemetry();
    assert_eq!(telemetry.auth_failed(), 4);
    assert_eq!(telemetry.bad_generation(), 1);
    assert_eq!(telemetry.total(), 5);
}

#[test]
fn image_slot_rejects_invalid_or_misaligned_images() {
    let mut table: ImageSlotTable<2, 64> = ImageSlotTable::new();
    assert_eq!(
        table.begin(MgmtImageBegin::new(0, 65, 1)),
        Err(ImageSlotError::ImageTooLarge)
    );

    table
        .begin(MgmtImageBegin::new(0, 8, 1))
        .expect("begin small invalid image");
    assert_eq!(
        table.chunk(&MgmtImageChunk::new(0, 1, b"bad").expect("chunk")),
        Err(ImageSlotError::OffsetMismatch)
    );
    table
        .chunk(&MgmtImageChunk::new(0, 0, b"not-wasm").expect("chunk"))
        .expect("chunk invalid image");
    assert!(matches!(
        table.end(MgmtImageEnd::new(0, 8)),
        Err(ImageSlotError::InvalidImage(_))
    ));
}

#[test]
fn image_slot_preserves_previous_active_image_for_rollback() {
    let mut table: ImageSlotTable<2, 131_072> = ImageSlotTable::new();
    install_image(&mut table, 0, 1, WASIP1_STDOUT_GUEST);
    table
        .activate(MgmtImageActivate::new(0, 2), true, 2)
        .expect("activate first image");

    install_image(&mut table, 1, 2, WASIP1_STDERR_GUEST);
    table
        .activate(MgmtImageActivate::new(1, 3), true, 3)
        .expect("activate second image");
    assert_eq!(table.active_slot(), Some(1));
    assert!(table.has_rollback());

    table
        .rollback(MgmtImageRollback::new(0))
        .expect("rollback into slot 0");
    assert_eq!(table.active_slot(), Some(0));
    assert!(!table.has_rollback());
    assert_eq!(table.slot(0).expect("slot").generation(), 1);
}

#[test]
fn image_slot_rejects_without_rollback() {
    let mut table: ImageSlotTable<2, 1024> = ImageSlotTable::new();
    assert_eq!(
        table.rollback(MgmtImageRollback::new(0)),
        Err(ImageSlotError::RollbackEmpty)
    );
}

#[test]
fn image_slot_reports_telemetry_snapshot() {
    let mut table: ImageSlotTable<2, 131_072> = ImageSlotTable::new();
    install_image(&mut table, 0, 1, WASIP1_STDOUT_GUEST);
    table
        .activate(MgmtImageActivate::new(0, 2), true, 2)
        .expect("activate image");
    let telemetry = table.telemetry(3, 9);
    assert_eq!(telemetry.active_slot(), Some(0));
    assert!(!telemetry.has_rollback());
    assert_eq!(telemetry.outstanding_leases(), 3);
    assert_eq!(telemetry.memory_epoch(), 9);
}
