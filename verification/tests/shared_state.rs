use dial9_telemetry::recorder::buffer::{CentralCollector, COLLECTOR_BATCHES};
use dial9_telemetry::recorder::event::{
    SampleSource, TaskId, TelemetryEvent, ThreadRole, WorkerId,
};
use dial9_telemetry::recorder::shared_state::{
    waker_of, wake_event, SharedState, TlDrainStats,
};
use dial9_telemetry::recorder::source::{CpuSampleData, Source};

fn poll_end_event() -> TelemetryEvent {
    TelemetryEvent::PollEnd { timestamp_ns: 1000, worker_id: WorkerId { id: 0 } }
}

fn enabled_shared_state() -> SharedState {
    let mut ss = SharedState::new(0, None);
    ss.enabled = true;
    ss
}

fn collected(ss: &mut SharedState) -> u64 {
    let mut count = 0;
    while let Some(batch) = ss.collector.next() {
        count += batch.event_count();
    }
    count
}

#[test]
fn record_event_registers_tl_buffer_handle() {
    let mut ss = enabled_shared_state();
    ss.record_encodable_event(1, poll_end_event());
    assert_eq!(ss.tl_buffers.len(), 1);
    assert!(ss.tl_buffers[0].buffer.is_some());
}

#[test]
fn second_record_event_does_not_re_register() {
    let mut ss = enabled_shared_state();
    ss.record_encodable_event(1, poll_end_event());
    ss.record_encodable_event(1, poll_end_event());
    assert_eq!(ss.tl_buffers.len(), 1);
}

#[test]
fn drain_all_tl_buffers_flushes_idle_buffer() {
    let mut ss = enabled_shared_state();
    ss.record_encodable_event(1, poll_end_event());
    assert!(ss.collector.next().is_none());
    ss.bump_drain_epoch();
    ss.drain_all_tl_buffers();
    let batch = ss.collector.next().expect("expected a batch after drain");
    assert!(batch.event_count() > 0);
}

#[test]
fn drain_all_tl_buffers_from_another_thread() {
    let mut ss = enabled_shared_state();
    ss.record_encodable_event(7, poll_end_event());
    ss.record_encodable_event(7, poll_end_event());
    ss.thread_exited(7);
    ss.bump_drain_epoch();
    ss.drain_all_tl_buffers();
    let batch = ss.collector.next().expect("expected a batch after drain");
    assert_eq!(batch.event_count(), 2);
}

#[test]
fn drain_skips_busy_buffer() {
    let mut ss = enabled_shared_state();
    ss.record_encodable_event(1, poll_end_event());
    ss.bump_drain_epoch();
    ss.tl_buffers[0].flush_epoch = 1;
    ss.drain_all_tl_buffers();
    assert!(ss.collector.next().is_none());
}

#[test]
fn drain_prunes_dead_handles() {
    let mut ss = enabled_shared_state();
    ss.record_encodable_event(7, poll_end_event());
    ss.thread_exited(7);
    ss.drain_all_tl_buffers();
    assert_eq!(ss.tl_buffers.len(), 0, "dead handle should have been pruned");
}

#[test]
fn drain_flushes_live_worker_buffer() {
    let mut ss = enabled_shared_state();
    ss.record_encodable_event(7, poll_end_event());
    assert!(ss.collector.next().is_none());
    ss.bump_drain_epoch();
    ss.drain_all_tl_buffers();
    let batch = ss
        .collector
        .next()
        .expect("intrusive drain should have flushed the live worker's event");
    assert_eq!(batch.event_count(), 1);
}

#[test]
fn test_shared_state_no_spawn_location_fields() {
    let _shared = SharedState::new(12, None);
}

#[test]
fn interleaved_recording_and_draining_keeps_every_event() {
    let mut ss = enabled_shared_state();
    let mut recorded = 0;
    for round in 0..50u64 {
        for thread in 0..4u64 {
            ss.record_encodable_event(thread, poll_end_event());
            recorded += 1;
        }
        if round % 3 == 0 {
            ss.bump_drain_epoch();
        }
        if round % 5 == 0 {
            ss.drain_all_tl_buffers();
        }
        if round == 20 {
            ss.thread_exited(2);
        }
    }
    ss.bump_drain_epoch();
    ss.drain_all_tl_buffers();
    assert_eq!(collected(&mut ss), recorded);
}

#[test]
fn drain_counts_what_it_did() {
    let mut ss = enabled_shared_state();
    for thread in 0..5u64 {
        ss.record_encodable_event(thread, poll_end_event());
    }
    ss.record_encodable_event(0, poll_end_event());
    ss.bump_drain_epoch();
    ss.tl_buffers[1].flush_epoch = 1;
    ss.tl_buffers[2].poisoned = true;
    ss.thread_exited(3);
    let stats = ss.drain_all_tl_buffers();
    assert_eq!(
        stats,
        TlDrainStats {
            buffers_skipped_busy: 1,
            buffers_locked: 2,
            events_flushed: 3,
            buffers_flushed: 2,
            dead_pruned: 1,
        }
    );
    assert_eq!(ss.tl_buffers.len(), 4);
}

#[test]
fn second_drain_in_one_epoch_does_nothing() {
    let mut ss = enabled_shared_state();
    ss.record_encodable_event(1, poll_end_event());
    ss.bump_drain_epoch();
    ss.drain_all_tl_buffers();
    assert_eq!(collected(&mut ss), 1);
    let stats = ss.drain_all_tl_buffers();
    assert_eq!(stats.buffers_skipped_busy, 1);
    assert_eq!(stats.events_flushed, 0);
    assert_eq!(collected(&mut ss), 0);
}

#[test]
fn recording_in_a_new_epoch_flushes_the_own_buffer() {
    let mut ss = enabled_shared_state();
    ss.record_encodable_event(1, poll_end_event());
    ss.bump_drain_epoch();
    ss.record_encodable_event(1, poll_end_event());
    assert_eq!(collected(&mut ss), 2);
    assert_eq!(ss.tl_buffers[0].flush_epoch, 1);
}

#[test]
fn full_buffer_flushes_itself() {
    let mut ss = enabled_shared_state();
    let big = TelemetryEvent::Custom { encoded: vec![0; 1_048_575] };
    ss.record_encodable_event(1, big);
    assert_eq!(collected(&mut ss), 1);
    let smaller = TelemetryEvent::Custom { encoded: vec![0; 1_048_574] };
    ss.record_encodable_event(1, smaller);
    assert_eq!(collected(&mut ss), 0);
}

#[test]
fn if_enabled_gives_nothing_while_disabled() {
    let mut ss = SharedState::new(0, None);
    assert!(ss.if_enabled().is_none());
    assert!(!ss.is_enabled());
    ss.enabled = true;
    let mut buffer = ss.if_enabled().expect("recording is enabled");
    buffer.record_encodable_event(1, poll_end_event());
    buffer.with_encoder(1, |encoder| {
        encoder.encode(poll_end_event());
        encoder.encode(poll_end_event());
    });
    ss.drain_to_collector(1);
    assert_eq!(collected(&mut ss), 3);
}

#[test]
fn queue_sample_keeps_the_low_byte_of_the_depth() {
    let mut ss = enabled_shared_state();
    ss.record_queue_sample(1, 0x1_02, 99);
    ss.drain_to_collector(1);
    let batch = ss.collector.next().unwrap();
    assert!(matches!(
        batch.events()[0],
        TelemetryEvent::QueueSample { timestamp_ns: 99, global_queue: 2 }
    ));
}

#[test]
fn wake_event_without_a_waking_task_has_task_zero() {
    let ss = SharedState::new(0, None);
    let event = ss.create_wake_event(TaskId { id: 5 }, 3, 77);
    assert!(matches!(
        event,
        TelemetryEvent::Wake {
            timestamp_ns: 77,
            waker_task_id: TaskId { id: 0 },
            woken_task_id: TaskId { id: 5 },
            target_worker: 3,
        }
    ));
}

#[test]
fn wake_event_names_the_waking_task() {
    let runtime = tokio::runtime::Builder::new_multi_thread().worker_threads(1).build().unwrap();
    let (expected, event) = runtime.block_on(async {
        tokio::spawn(async {
            let id: u64 = tokio::task::id().to_string().parse().unwrap();
            let ss = SharedState::new(0, None);
            (id, ss.create_wake_event(TaskId { id: 5 }, 3, 77))
        })
        .await
        .unwrap()
    });
    match event {
        TelemetryEvent::Wake { waker_task_id, .. } => assert_eq!(waker_task_id.id, expected),
        other => panic!("expected a wake, got {other:?}"),
    }
    assert!(matches!(
        wake_event(Some(TaskId { id: 8 }), TaskId { id: 5 }, 3, 77),
        TelemetryEvent::Wake { waker_task_id: TaskId { id: 8 }, .. }
    ));
}

#[test]
fn attached_runtimes_have_workers_of_their_own() {
    let mut ss = SharedState::new(0, None);
    ss.attach_runtime(Some("main".to_string()), 2);
    ss.attach_runtime(None, 3);
    assert_eq!(ss.next_worker_id, 5);
    assert_eq!(ss.contexts[0].workers_and_base, Some((2, 0)));
    assert_eq!(ss.contexts[1].workers_and_base, Some((3, 2)));
    assert_eq!(ss.contexts[0].worker_ids.get(&1), Some(&1));
    assert_eq!(ss.contexts[1].worker_ids.get(&0), Some(&2));
    assert_eq!(ss.contexts[1].worker_ids.get(&2), Some(&4));
}

#[test]
fn workers_take_the_place_of_blocking_threads() {
    let mut ss = SharedState::new(0, None);
    ss.attach_runtime(None, 2);
    ss.attach_runtime(None, 2);
    ss.thread_roles.insert(9, ThreadRole::Blocking);
    assert_eq!(ss.resolve_worker(1, 1, 9), Some(WorkerId { id: 3 }));
    assert_eq!(ss.thread_roles.get(&9), Some(&ThreadRole::Worker(WorkerId { id: 3 })));
    assert_eq!(ss.resolve_worker(1, 2, 10), None);
    assert_eq!(ss.resolve_worker(2, 0, 10), None);
    assert!(!ss.thread_roles.contains_key(&10));
}

#[test]
fn sources_are_drained_once() {
    let mut ss = enabled_shared_state();
    let worker = ThreadRole::Worker(WorkerId { id: 3 });
    ss.thread_roles.insert(9, worker);
    let mut source = Source::new("cpu".to_string());
    source.push(CpuSampleData {
        timestamp_ns: 1,
        tid: 9,
        source: SampleSource::CpuProfile,
        callchain: vec![7, 8],
    });
    source.push(CpuSampleData {
        timestamp_ns: 2,
        tid: 10,
        source: SampleSource::SchedEvent,
        callchain: vec![],
    });
    ss.push_source(source);
    ss.flush_sources(1);
    ss.flush_sources(1);
    ss.drain_to_collector(1);
    let batch = ss.collector.next().unwrap();
    assert_eq!(batch.event_count(), 2);
    match &batch.events()[0] {
        TelemetryEvent::CpuSample { timestamp_ns, tid, role, source, callchain } => {
            assert_eq!((*timestamp_ns, *tid), (1, 9));
            assert_eq!(*role, Some(worker));
            assert_eq!(*source, SampleSource::CpuProfile);
            assert_eq!(callchain, &vec![7, 8]);
        }
        other => panic!("expected a sample, got {other:?}"),
    }
    assert!(matches!(
        batch.events()[1],
        TelemetryEvent::CpuSample { tid: 10, role: None, source: SampleSource::SchedEvent, .. }
    ));
    assert_eq!(collected(&mut ss), 0);
}

#[test]
fn sources_hand_out_events_of_any_kind() {
    let mut ss = enabled_shared_state();
    let mut mock = Source::new("mock".to_string());
    mock.push_event(TelemetryEvent::Custom { encoded: vec![1, 2] });
    mock.push_event(poll_end_event());
    assert_eq!(mock.name, "mock");
    ss.push_source(mock);
    ss.flush_sources(1);
    ss.drain_to_collector(1);
    let batch = ss.collector.next().unwrap();
    assert_eq!(batch.event_count(), 2);
    match &batch.events()[0] {
        TelemetryEvent::Custom { encoded } => assert_eq!(encoded, &vec![1, 2]),
        other => panic!("expected the event of the source, got {other:?}"),
    }
    assert!(matches!(batch.events()[1], TelemetryEvent::PollEnd { timestamp_ns: 1000, .. }));
}

#[test]
fn stopped_threads_are_taken_once() {
    let mut source = Source::new("sched".to_string());
    source.on_thread_stop(4);
    source.on_thread_stop(5);
    assert_eq!(source.take_stopped(), vec![4, 5]);
    assert!(source.take_stopped().is_empty());
}

#[test]
fn full_collector_evicts_the_oldest_batch() {
    let mut ss = enabled_shared_state();
    ss.collector = CentralCollector::with_capacity(2);
    for (thread, count) in [(1u64, 1u64), (2, 2), (3, 3)] {
        for _ in 0..count {
            ss.record_encodable_event(thread, poll_end_event());
        }
        ss.drain_to_collector(thread);
    }
    assert_eq!(ss.collector.next().unwrap().event_count(), 2);
    assert_eq!(ss.collector.next().unwrap().event_count(), 3);
    assert!(ss.collector.next().is_none());
    assert_eq!(ss.collector.take_dropped_batches(), 1);
    assert_eq!(ss.collector.take_dropped_batches(), 0);
}

#[test]
fn one_drain_can_overfill_the_collector() {
    let mut ss = enabled_shared_state();
    let threads = COLLECTOR_BATCHES as u64 + 3;
    for thread in 0..threads {
        ss.record_encodable_event(thread, poll_end_event());
    }
    ss.bump_drain_epoch();
    assert_eq!(ss.drain_all_tl_buffers().buffers_flushed, threads);
    assert_eq!(ss.collector.take_dropped_batches(), 3);
    assert_eq!(collected(&mut ss), COLLECTOR_BATCHES as u64);
}

#[test]
fn taken_batches_make_room() {
    let mut ss = enabled_shared_state();
    ss.collector = CentralCollector::with_capacity(1);
    for _ in 0..5 {
        ss.record_encodable_event(1, poll_end_event());
        ss.drain_to_collector(1);
        assert_eq!(ss.collector.next().unwrap().event_count(), 1);
    }
    assert_eq!(ss.collector.take_dropped_batches(), 0);
}

#[test]
fn interleaved_writers_and_drains_preserve_the_event_count() {
    for (num_threads, events_per_thread, drain_ticks) in
        [(1usize, 1u64, 0usize), (6, 200, 10), (3, 57, 4), (2, 200, 1), (6, 1, 10)]
    {
        let mut ss = enabled_shared_state();
        let mut remaining = vec![events_per_thread; num_threads];
        let mut ticks = 0;
        while remaining.iter().any(|left| *left > 0) {
            for (thread, left) in remaining.iter_mut().enumerate() {
                let burst = (*left).min(thread as u64 * 7 + 5);
                for _ in 0..burst {
                    ss.record_encodable_event(thread as u64, poll_end_event());
                }
                *left -= burst;
                if *left == 0 && burst > 0 {
                    ss.thread_exited(thread as u64);
                }
            }
            if ticks < drain_ticks {
                ss.bump_drain_epoch();
                ss.drain_all_tl_buffers();
                ticks += 1;
            }
        }
        ss.bump_drain_epoch();
        ss.drain_all_tl_buffers();
        let total = collected(&mut ss);
        assert_eq!(ss.collector.take_dropped_batches(), 0);
        assert_eq!(
            total,
            num_threads as u64 * events_per_thread,
            "every recorded event must reach the collector exactly once"
        );
    }
}

#[test]
fn waker_is_read_from_its_text() {
    assert_eq!(waker_of(None), None);
    assert_eq!(waker_of(Some("7".to_string())), Some(TaskId { id: 7 }));
    assert_eq!(
        waker_of(Some("18446744073709551615".to_string())),
        Some(TaskId { id: u64::MAX })
    );
}
