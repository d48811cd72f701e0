use doom_rust::normalize::{normalize, NormalizedVertex};
use doom_rust::wad::Vertex;
use doom_rust::WadError;

fn vertices(coords: &[(i16, i16)]) -> Vec<Vertex> {
    coords.iter().map(|&(x, y)| Vertex { x, y }).collect()
}

#[test]
fn normalize_shifts_minima_to_zero() {
    let input = vertices(&[(-5, 10), (3, -7), (0, 0)]);
    let out = normalize(&input).unwrap();
    assert_eq!(
        out,
        vec![
            NormalizedVertex { x: 0, y: 17 },
            NormalizedVertex { x: 8, y: 0 },
            NormalizedVertex { x: 5, y: 7 },
        ]
    );
}

#[test]
fn normalize_preserves_relative_distances() {
    let input = vertices(&[(100, 200), (-30, 50), (7, -7)]);
    let out = normalize(&input).unwrap();
    assert_eq!(out.len(), input.len());
    assert_eq!(out.iter().map(|v| v.x).min(), Some(0));
    assert_eq!(out.iter().map(|v| v.y).min(), Some(0));
    for i in 0..input.len() {
        for j in 0..input.len() {
            assert_eq!(
                out[i].x - out[j].x,
                i32::from(input[i].x) - i32::from(input[j].x)
            );
            assert_eq!(
                out[i].y - out[j].y,
                i32::from(input[i].y) - i32::from(input[j].y)
            );
        }
    }
}

#[test]
fn normalize_single_vertex_goes_to_origin() {
    let out = normalize(&vertices(&[(-10, 20)])).unwrap();
    assert_eq!(out, vec![NormalizedVertex { x: 0, y: 0 }]);
}

#[test]
fn normalize_handles_extreme_coordinates() {
    // The widest possible spread: a shifted coordinate reaches 65535,
    // beyond the 16-bit signed range.
    let out = normalize(&vertices(&[(i16::MIN, i16::MAX), (i16::MAX, i16::MIN)])).unwrap();
    assert_eq!(out[0], NormalizedVertex { x: 0, y: 65535 });
    assert_eq!(out[1], NormalizedVertex { x: 65535, y: 0 });
}

#[test]
fn normalize_on_empty_input_fails() {
    assert_eq!(normalize(&Vec::new()), Err(WadError::EmptyInput));
}

#[test]
fn normalize_of_all_positive_set_still_touches_zero() {
    let out = normalize(&vertices(&[(4, 9), (6, 12)])).unwrap();
    assert_eq!(
        out,
        vec![NormalizedVertex { x: 0, y: 0 }, NormalizedVertex { x: 2, y: 3 }]
    );
}
