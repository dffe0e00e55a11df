use photoproof_desktop::capture::{rating_mints, stroke_payload, StrokePoint, Tool};
use photoproof_desktop::dto::StrokePayloadDto;
use photoproof_desktop::os::CmdError;

fn wire(points: Vec<[i64; 4]>) -> StrokePayloadDto {
    StrokePayloadDto { base_w: 40, orientation: 1, points, tool: "pencil".into() }
}

fn three_points() -> Vec<[i64; 4]> {
    vec![[4312, 2210, 1000, 0], [4330, 2204, 820, 9], [4391, 2188, 770, 17]]
}

fn refusal(dto: StrokePayloadDto) -> String {
    match stroke_payload(dto) {
        Err(CmdError::Invalid(m)) => m,
        other => panic!("expected a refusal, got {other:?}"),
    }
}

#[test]
fn stroke_validation_rejects_every_8_2_violation() {
    let cases: Vec<(&str, StrokePayloadDto)> = vec![
        ("tool", StrokePayloadDto { tool: "marker".into(), ..wire(three_points()) }),
        ("orientation 0", StrokePayloadDto { orientation: 0, ..wire(three_points()) }),
        ("orientation 9", StrokePayloadDto { orientation: 9, ..wire(three_points()) }),
        ("base_w 0", StrokePayloadDto { base_w: 0, ..wire(three_points()) }),
        ("base_w 10001", StrokePayloadDto { base_w: 10_001, ..wire(three_points()) }),
        ("zero points", wire(vec![])),
        ("8193 points", wire((0..8193).map(|i| [0, 0, 1000, i]).collect())),
        ("x low", wire(vec![[-2501, 0, 1000, 0]])),
        ("x high", wire(vec![[12_501, 0, 1000, 0]])),
        ("y high", wire(vec![[0, 12_501, 1000, 0]])),
        ("pressure", wire(vec![[0, 0, 1001, 0]])),
        ("t0 nonzero", wire(vec![[0, 0, 1000, 5]])),
        ("t negative", wire(vec![[0, 0, 1000, 0], [1, 1, 1000, -3]])),
        ("t decreases", wire(vec![[0, 0, 1000, 0], [9, 9, 1000, 9], [9, 12, 1000, 8]])),
    ];
    for (label, dto) in cases {
        assert!(stroke_payload(dto).is_err(), "{label} must be rejected");
    }
    let mut pts: Vec<[i64; 4]> = (0..8191).map(|i| [i % 10_000, i % 10_000, 0, i]).collect();
    pts.insert(0, [-2500, 12_500, 1000, 0]);
    pts[1][3] = 1;
    assert!(stroke_payload(wire(pts)).is_ok());
}

#[test]
fn a_valid_stroke_round_trips_its_integers() {
    let p = stroke_payload(wire(three_points())).unwrap();
    assert_eq!(p.base_w, 40);
    assert_eq!(p.orientation, 1);
    assert_eq!(p.tool, Tool::Pencil);
    assert_eq!(p.points.len(), 3);
    assert_eq!(p.points[1], StrokePoint { x: 4330, y: 2204, p: 820, t: 9 });
}

#[test]
fn refusals_name_the_first_violation() {
    assert_eq!(
        refusal(StrokePayloadDto { tool: "marker".into(), ..wire(three_points()) }),
        "invalid stroke payload: unknown tool \"marker\""
    );
    assert_eq!(
        refusal(StrokePayloadDto { orientation: 9, base_w: 0, ..wire(three_points()) }),
        "invalid stroke payload: orientation 9 not in 1..=8"
    );
    assert_eq!(
        refusal(StrokePayloadDto { base_w: 10_001, ..wire(three_points()) }),
        "invalid stroke payload: base_w 10001 not in 1..=10000"
    );
    assert_eq!(refusal(wire(vec![])), "invalid stroke payload: 0 points not in 1..=8192");
    assert_eq!(
        refusal(wire(vec![[0, 0, 1000, 0], [1, 1, 1000, -3]])),
        "invalid stroke payload: point 1 time negative"
    );
    assert_eq!(refusal(wire(vec![[0, 0, 1000, 5]])), "invalid stroke payload: t[0] must be 0");
    assert_eq!(
        refusal(wire(vec![[0, 0, 1000, 0], [9, 9, 1000, 9], [9, 12, 1000, 8]])),
        "invalid stroke payload: point 2 time decreases"
    );
    assert_eq!(
        refusal(wire(vec![[0, 0, 1001, 0]])),
        "invalid stroke payload: point 0 pressure out of 0..=1000"
    );
}

#[test]
fn rating_keys_refuse_out_of_range_values_and_ignore_session_scope() {
    assert_eq!(rating_mints(6, 1), Err(CmdError::Invalid("rating out of range: 6".into())));
    assert_eq!(rating_mints(0, 2), Ok(true));
    assert_eq!(rating_mints(5, 0), Ok(false));
}
