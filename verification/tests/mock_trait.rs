//! Tests of the capability traits themselves, with hand-written
//! implementations shaped exactly like the engine's generated output.

use damock::{Mock, MockOther};

#[derive(Clone, Copy, PartialEq, Eq, Debug)]
struct Baseline(i32);

impl Mock for Baseline {
    fn mock() -> Self {
        Baseline(0)
    }
}

impl MockOther for Baseline {
    fn mock_other() -> Self {
        Baseline(1)
    }
}

#[derive(Clone, Copy, PartialEq, Eq, Debug)]
struct Point {
    x: Baseline,
    y: Baseline,
}

impl Mock for Point {
    fn mock() -> Self {
        Self {
            x: damock::Mock::mock(),
            y: damock::Mock::mock(),
        }
    }
}

#[derive(Clone, PartialEq, Eq, Debug)]
struct Wrapped(String, Baseline);

impl Mock for Wrapped {
    fn mock() -> Self {
        Self(Default::default(), damock::Mock::mock())
    }
}

#[derive(Clone, Copy, PartialEq, Eq, Debug)]
enum Shape {
    #[allow(dead_code)]
    Circle {
        r: Baseline,
    },
    Square {
        side: Baseline,
    },
}

impl Mock for Shape {
    fn mock() -> Self {
        Self::Square {
            side: damock::Mock::mock(),
        }
    }
}

#[test]
fn unit_mocks_to_unit() {
    <() as Mock>::mock()
}

#[test]
fn option_mocks_to_some() {
    assert_eq!(Option::<Baseline>::mock(), Some(Baseline(0)));
    assert_eq!(Option::<()>::mock(), Some(()));
}

#[test]
fn mock_is_deterministic() {
    assert_eq!(Point::mock(), Point::mock());
    assert_eq!(Point::mock(), Point { x: Baseline(0), y: Baseline(0) });
}

#[test]
fn defaulted_field_is_default() {
    let w = Wrapped::mock();
    assert_eq!(w.0, String::default());
    assert_eq!(w.1, Baseline(0));
}

#[test]
fn selected_variant_on_every_call() {
    for _ in 0..3 {
        assert!(matches!(Shape::mock(), Shape::Square { side } if side == Baseline(0)));
    }
}

#[test]
fn mock_other_differs_from_mock() {
    assert_ne!(Baseline::mock(), Baseline::mock_other());
}
