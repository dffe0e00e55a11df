use photoproof_desktop::hardware::{attach_native_vram, usable_adapters, AdapterInfo, DeviceType, GpuAdapter, MemoryHeap, NativeDevice};
use photoproof_desktop::panel::{absent_capture, tail_limit, ClusterSpace, DuplicateGroupDto, MAX_TAIL_ROWS};
use photoproof_desktop::time::rfc3339_millis;

#[test]
fn timestamps_render_as_utc_rfc3339_with_milliseconds() {
    assert_eq!(rfc3339_millis(0), "1970-01-01T00:00:00.000Z");
    assert_eq!(rfc3339_millis(1_767_225_600_000), "2026-01-01T00:00:00.000Z");
    assert_eq!(rfc3339_millis(951_782_400_123), "2000-02-29T00:00:00.123Z");
    assert_eq!(rfc3339_millis(-1), "1969-12-31T23:59:59.999Z");
}

#[test]
fn cpu_adapters_are_not_gpus_and_native_vram_fills_gaps() {
    let infos = vec![
        AdapterInfo { name: "llvmpipe".into(), backend: "Vulkan".into(), device_type: DeviceType::Cpu },
        AdapterInfo { name: "RTX".into(), backend: "Vulkan".into(), device_type: DeviceType::DiscreteGpu },
        AdapterInfo { name: "iGPU".into(), backend: "Gl".into(), device_type: DeviceType::IntegratedGpu },
    ];
    let mut adapters = usable_adapters(&infos);
    assert_eq!(adapters.len(), 2);
    assert_eq!(adapters[0].name, "RTX");
    assert_eq!(adapters[0].vram_bytes, None);
    let devices = vec![
        NativeDevice { is_cpu: true, name: "RTX".into(), heaps: vec![MemoryHeap { device_local: true, size: 1 }] },
        NativeDevice {
            is_cpu: false,
            name: "RTX".into(),
            heaps: vec![
                MemoryHeap { device_local: true, size: 8 << 30 },
                MemoryHeap { device_local: false, size: 64 << 30 },
                MemoryHeap { device_local: true, size: 256 << 20 },
            ],
        },
    ];
    attach_native_vram(&mut adapters, &devices);
    assert_eq!(adapters[0], GpuAdapter { name: "RTX".into(), backend: "Vulkan".into(), vram_bytes: Some(8 << 30) });
    assert_eq!(adapters[1].vram_bytes, None);
}

#[test]
fn panel_bounds_and_defaults() {
    assert_eq!(tail_limit(10), 10);
    assert_eq!(tail_limit(100_000), MAX_TAIL_ROWS);
    let c = absent_capture(true, Vec::new());
    assert_eq!(c.mic, "disarmed");
    assert!(!c.stream_open);
    assert!(c.asr_ready);
    assert_eq!(c.notes, vec!["capture engine absent: in-process VAD failed to build".to_string()]);
    let g = DuplicateGroupDto::of(vec!["a".into(), "b".into()]);
    assert_eq!(g.count, 2);
    assert_eq!(ClusterSpace::default(), ClusterSpace::Annotation);
}
