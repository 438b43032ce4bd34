use hibana_pico::choreography::protocol::{BudgetExpired, GpioEdge, GpioWait, TimerSleepDone, TimerSleepUntil};
use hibana_pico::kernel::resolver::{InterruptEvent, PicoInterruptResolver, ResolvedInterrupt, ResolverError};

#[test]
fn timer_irq_resolves_only_after_a_matching_sleep_request_is_due() {
    let mut resolver: PicoInterruptResolver<2, 2, 1> = PicoInterruptResolver::new();

    resolver
        .push_irq(InterruptEvent::TimerTick { tick: 9 })
        .expect("record tick without wait");
    assert_eq!(resolver.resolve_next(), Ok(None));

    let id = resolver
        .request_timer_sleep(TimerSleepUntil::new(10))
        .expect("register sleep");
    assert_eq!(id.raw(), 1);
    assert_eq!(resolver.resolve_next(), Ok(None));

    resolver
        .push_irq(InterruptEvent::TimerTick { tick: 10 })
        .expect("record due tick");
    assert_eq!(
        resolver.resolve_next(),
        Ok(Some(ResolvedInterrupt::TimerSleepDone(
            TimerSleepDone::new(10)
        )))
    );
    assert_eq!(resolver.resolve_next(), Ok(None));
}

#[test]
fn gpio_edges_reject_until_a_wait_is_registered() {
    let mut resolver: PicoInterruptResolver<1, 2, 1> = PicoInterruptResolver::new();

    resolver
        .push_irq(InterruptEvent::GpioEdge { pin: 5, high: true })
        .expect("queue gpio edge");
    assert_eq!(
        resolver.resolve_next(),
        Err(ResolverError::UnsolicitedGpioEdge)
    );
    let telemetry = resolver.rejection_telemetry();
    assert_eq!(telemetry.unsolicited_event(), 1);
    assert_eq!(telemetry.total(), 1);

    resolver.request_gpio_edge(5).expect("wait for pin 5");
    resolver
        .push_irq(InterruptEvent::GpioEdge {
            pin: 5,
            high: false,
        })
        .expect("queue subscribed edge");
    assert_eq!(
        resolver.resolve_next(),
        Ok(Some(ResolvedInterrupt::GpioWaitSatisfied(GpioEdge::new(
            1, 5, false, 1
        ))))
    );
    let telemetry = resolver.rejection_telemetry();
    assert_eq!(telemetry.unsolicited_event(), 1);
    assert_eq!(telemetry.total(), 1);
}

#[test]
fn gpio_wait_generation_mismatch_rejects_stale_registration() {
    let mut resolver: PicoInterruptResolver<1, 1, 2> = PicoInterruptResolver::new();
    resolver
        .request_gpio_wait(GpioWait::new(60, 7, 4, 2))
        .expect("register gpio wait");
    assert_eq!(
        resolver.request_gpio_wait(GpioWait::new(60, 7, 4, 1)),
        Err(ResolverError::StaleGpioWaitGeneration)
    );
    let telemetry = resolver.rejection_telemetry();
    assert_eq!(telemetry.stale_generation(), 1);
    assert_eq!(telemetry.total(), 1);
}

#[test]
fn gpio_wait_table_full_and_conflict_are_bounded_rejections() {
    let mut full_resolver: PicoInterruptResolver<1, 1, 1> = PicoInterruptResolver::new();
    full_resolver
        .request_gpio_wait(GpioWait::new(60, 7, 4, 2))
        .expect("register first gpio wait");
    assert_eq!(
        full_resolver.request_gpio_wait(GpioWait::new(61, 8, 5, 2)),
        Err(ResolverError::GpioWaitTableFull)
    );
    let telemetry = full_resolver.rejection_telemetry();
    assert_eq!(telemetry.gpio_wait_table_full(), 1);
    assert_eq!(telemetry.total(), 1);

    let mut conflict_resolver: PicoInterruptResolver<1, 1, 2> = PicoInterruptResolver::new();
    conflict_resolver
        .request_gpio_wait(GpioWait::new(60, 7, 4, 2))
        .expect("register first gpio wait");
    assert_eq!(
        conflict_resolver.request_gpio_wait(GpioWait::new(61, 8, 4, 2)),
        Err(ResolverError::GpioWaitConflict)
    );
    let telemetry = conflict_resolver.rejection_telemetry();
    assert_eq!(telemetry.gpio_wait_conflict(), 1);
    assert_eq!(telemetry.total(), 1);
}

#[test]
fn gpio_wait_fence_revokes_subscription_before_old_edge_can_progress() {
    let mut resolver: PicoInterruptResolver<1, 2, 2> = PicoInterruptResolver::new();
    resolver
        .request_gpio_wait(GpioWait::new(60, 7, 4, 2))
        .expect("register gpio wait");
    assert!(resolver.has_active_gpio_waits());
    assert_eq!(resolver.active_gpio_wait_count(), 1);

    assert_eq!(
        resolver.cancel_gpio_wait(7, 1),
        Err(ResolverError::StaleGpioWaitGeneration)
    );
    assert_eq!(
        resolver.cancel_gpio_wait(99, 2),
        Err(ResolverError::GpioWaitNotFound)
    );
    assert_eq!(resolver.fence_gpio_waits(), 1);
    assert!(!resolver.has_active_gpio_waits());

    resolver
        .push_irq(InterruptEvent::GpioEdge { pin: 4, high: true })
        .expect("queue stale edge after fence");
    assert_eq!(
        resolver.resolve_next(),
        Err(ResolverError::UnsolicitedGpioEdge)
    );
    let telemetry = resolver.rejection_telemetry();
    assert_eq!(telemetry.stale_generation(), 1);
    assert_eq!(telemetry.gpio_wait_not_found(), 1);
    assert_eq!(telemetry.unsolicited_event(), 1);
    assert_eq!(telemetry.total(), 3);
}

#[test]
fn transport_ready_is_a_resolved_policy_signal_not_a_payload_authority() {
    let mut resolver: PicoInterruptResolver<1, 1, 1> = PicoInterruptResolver::new();
    resolver
        .push_irq(InterruptEvent::TransportRxReady {
            role: 1,
            lane: 2,
            label_hint: 65,
        })
        .expect("queue transport readiness");
    assert_eq!(
        resolver.resolve_next(),
        Ok(Some(ResolvedInterrupt::TransportRxReady {
            role: 1,
            lane: 2,
            label_hint: 65
        }))
    );
}

#[test]
fn budget_timer_expiry_is_readiness_not_direct_kill() {
    let mut resolver: PicoInterruptResolver<1, 1, 1> = PicoInterruptResolver::new();
    resolver
        .push_irq(InterruptEvent::BudgetTimerExpired {
            run_id: 7,
            generation: 3,
        })
        .expect("queue budget timer expiry");

    assert_eq!(
        resolver.resolve_next(),
        Ok(Some(ResolvedInterrupt::BudgetExpired(BudgetExpired::new(
            7, 3
        ))))
    );
    assert_eq!(resolver.resolve_next(), Ok(None));
}

#[test]
fn resolved_ready_facts_are_consumed_once() {
    let mut resolver: PicoInterruptResolver<2, 3, 1> = PicoInterruptResolver::new();

    resolver
        .request_timer_sleep(TimerSleepUntil::new(7))
        .expect("register timer wait");
    resolver
        .push_irq(InterruptEvent::TimerTick { tick: 7 })
        .expect("record due timer tick");
    assert_eq!(
        resolver.resolve_next(),
        Ok(Some(ResolvedInterrupt::TimerSleepDone(
            TimerSleepDone::new(7)
        )))
    );
    assert_eq!(resolver.resolve_next(), Ok(None));

    resolver.request_gpio_edge(4).expect("register GPIO wait");
    resolver
        .push_irq(InterruptEvent::GpioEdge { pin: 4, high: true })
        .expect("queue subscribed GPIO edge");
    assert_eq!(
        resolver.resolve_next(),
        Ok(Some(ResolvedInterrupt::GpioWaitSatisfied(GpioEdge::new(
            1, 4, true, 1
        ))))
    );
    assert_eq!(resolver.resolve_next(), Ok(None));

    resolver
        .push_irq(InterruptEvent::TransportRxReady {
            role: 2,
            lane: 16,
            label_hint: 65,
        })
        .expect("queue transport readiness");
    assert_eq!(
        resolver.resolve_next(),
        Ok(Some(ResolvedInterrupt::TransportRxReady {
            role: 2,
            lane: 16,
            label_hint: 65
        }))
    );
    assert_eq!(resolver.resolve_next(), Ok(None));
}

#[test]
fn non_timer_irq_queue_is_bounded() {
    let mut resolver: PicoInterruptResolver<1, 1, 1> = PicoInterruptResolver::new();
    resolver
        .push_irq(InterruptEvent::TransportRxReady {
            role: 1,
            lane: 0,
            label_hint: 1,
        })
        .expect("queue first event");
    assert_eq!(
        resolver.push_irq(InterruptEvent::TransportRxReady {
            role: 1,
            lane: 0,
            label_hint: 2,
        }),
        Err(ResolverError::EventQueueFull)
    );
    let telemetry = resolver.rejection_telemetry();
    assert_eq!(telemetry.event_queue_full(), 1);
    assert_eq!(telemetry.total(), 1);
}
