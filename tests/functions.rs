use const_trig::{
    cos, degrees, exp, lb, lg, ln, log, pow, powf, precision_count, radians, root, sin, sqrt,
    summation, Degrees, Radians, Scalar, TermSource, DEFAULT_PRECISION,
};

/// An `f64` seen through the library's arithmetic.
#[derive(Clone, Copy, Debug, PartialEq)]
struct F(f64);

impl Scalar for F {
    fn spec_from_count(n: usize) -> F {
        F::from_count(n)
    }
    fn spec_plus(self, rhs: F) -> F {
        self.plus(rhs)
    }
    fn spec_minus(self, rhs: F) -> F {
        self.minus(rhs)
    }
    fn spec_times(self, rhs: F) -> F {
        self.times(rhs)
    }
    fn spec_over(self, rhs: F) -> F {
        self.over(rhs)
    }
    fn spec_negate(self) -> F {
        self.negate()
    }
    fn spec_pi() -> F {
        F::pi()
    }
    fn spec_log2_e() -> F {
        F::log2_e()
    }
    fn spec_log10_e() -> F {
        F::log10_e()
    }
    fn from_count(n: usize) -> F {
        F(n as f64)
    }
    fn plus(self, rhs: F) -> F {
        F(self.0 + rhs.0)
    }
    fn minus(self, rhs: F) -> F {
        F(self.0 - rhs.0)
    }
    fn times(self, rhs: F) -> F {
        F(self.0 * rhs.0)
    }
    fn over(self, rhs: F) -> F {
        F(self.0 / rhs.0)
    }
    fn negate(self) -> F {
        F(-self.0)
    }
    fn pi() -> F {
        F(std::f64::consts::PI)
    }
    fn log2_e() -> F {
        F(std::f64::consts::LOG2_E)
    }
    fn log10_e() -> F {
        F(std::f64::consts::LOG10_E)
    }
}

fn close(actual: f64, expected: f64, tolerance: f64) -> bool {
    (actual - expected).abs() <= tolerance * expected.abs().max(1.0)
}

#[test]
fn default_precision_is_one_hundred() {
    assert_eq!(DEFAULT_PRECISION, 100);
    assert_eq!(precision_count(None), 100);
    assert_eq!(precision_count(Some(7)), 7);
}

/// Emits 1, 2, 3, ... and counts its calls.
struct Counting {
    next: f64,
    calls: usize,
}

impl TermSource<F> for Counting {
    fn spec_term(self) -> F {
        F(self.next)
    }
    fn spec_next(self) -> Counting {
        Counting { next: self.next + 1.0, calls: self.calls + 1 }
    }
    fn next_term(&mut self) -> F {
        let t = F(self.next);
        self.next += 1.0;
        self.calls += 1;
        t
    }
}

#[test]
fn summation_adds_the_first_terms() {
    let s: F = summation(4, Counting { next: 1.0, calls: 0 });
    assert_eq!(s, F(10.0));
    let empty: F = summation(0, Counting { next: 1.0, calls: 0 });
    assert_eq!(empty, F(0.0));
}

#[test]
fn exp_scenarios() {
    assert_eq!(exp(F(0.0), Some(100)), F(1.0));
    assert!(close(exp(F(1.0), Some(100)).0, 2.7182818284590455, 1e-15));
    assert!(close(exp(F(-1.0), Some(100)).0, 0.36787944117144245, 1e-15));
    assert!(close(exp(F(6.0), Some(100)).0, 403.4287934927351, 1e-15));
    assert_eq!(exp(F(1.0), None), exp(F(1.0), Some(100)));
}

#[test]
fn exp_first_terms_exactly() {
    // 1/1 + 2/1 + 4/2 + 8/6
    let x = 2.0f64;
    let expected = 0.0 + 1.0 / 1.0 + x / 1.0 + (x * x) / 2.0 + (x * x * x) / 6.0;
    assert_eq!(exp(F(x), Some(4)), F(expected));
    assert_eq!(exp(F(x), Some(0)), F(0.0));
}

#[test]
fn powf_scenarios() {
    assert_eq!(powf(F(0.0), F(0.0), Some(100)), F(1.0));
    assert!(close(powf(F(2.6), F(4.1), Some(100)).0, 50.279469537021214, 1e-6));
    // the same value exactly, with the exponent written as an f32
    assert_eq!(powf(F(2.6), F(4.1f32 as f64), Some(100)), F(50.279469537021214));
}

#[test]
fn pow_multiplies() {
    assert_eq!(pow(F(2.0), 10), F(1024.0));
    assert_eq!(pow(F(3.0), 1), F(3.0));
    assert_eq!(pow(F(-1.5), 3), F(-3.375));
}

#[test]
fn pow_zero_exponent_gives_base() {
    assert_eq!(pow(F(5.0), 0), F(5.0));
    assert_eq!(pow(F(-0.25), 0), F(-0.25));
}

#[test]
fn root_of_thirty_four() {
    let b = root(F(34.0), 5, None);
    assert!(pow(b, 5).0 - 34.0 < 0.0000000000001);
    assert!(close(b.0, 34.0f64.powf(0.2), 1e-12));
}

#[test]
fn root_first_step_exactly() {
    let (x, n) = (8.0f64, 3usize);
    let a0 = x * 0.5;
    let a1 = a0 + (x / (a0 * a0) - a0) / 3.0;
    assert_eq!(root(F(x), n, Some(0)), F(a0));
    assert_eq!(root(F(x), n, Some(1)), F(a1));
}

#[test]
fn first_root_uses_the_base_as_its_power() {
    // pow(a, 0) is a, so each step is a + (x / a - a) / 1
    let x = 9.0f64;
    let a0 = x * 0.5;
    let a1 = a0 + (x / a0 - a0) / 1.0;
    assert_eq!(root(F(x), 1, Some(1)), F(a1));
}

#[test]
fn sqrt_values() {
    assert_eq!(sqrt(F(4.0), None), F(2.0));
    assert!(close(sqrt(F(2.0), None).0, std::f64::consts::SQRT_2, 1e-15));
    assert_eq!(sqrt(F(9.0), Some(0)), F(9.0));
    assert_eq!(sqrt(F(9.0), Some(1)), F(0.5 * (9.0 + 9.0 / 9.0)));
}

#[test]
fn sqrt_of_zero_is_not_guarded() {
    assert!(sqrt(F(0.0), Some(3)).0.is_nan());
}

#[test]
fn squared_root_gives_back_the_input() {
    for x in [0.25, 1.0, 2.0, 10.0, 12345.678] {
        let r = sqrt(F(x), None);
        assert!(close(pow(r, 2).0, x, 1e-14));
    }
}

#[test]
fn sine_and_cosine_of_sixty_degrees() {
    let sixty = radians(F(60.0));
    assert!(close(sin(sixty, None).0, (60.0f64).to_radians().sin(), 1e-14));
    assert!(close(cos(sixty, None).0, (60.0f64).to_radians().cos(), 1e-14));
    let third = F(std::f64::consts::PI / 3.0);
    assert!(close(sin(third, None).0, sin(sixty, None).0, 1e-14));
    assert!(close(cos(third, None).0, cos(sixty, None).0, 1e-14));
}

#[test]
fn sine_and_cosine_first_terms_exactly() {
    let x = 0.5f64;
    let nxx = -(x * x);
    let sin2 = 0.0 + x + (x * nxx) / ((1.0 + 1.0) * (1.0 + 2.0));
    let cos2 = 0.0 + 1.0 + (1.0 * nxx) / ((0.0 + 1.0) * (0.0 + 2.0));
    assert_eq!(sin(F(x), Some(2)), F(sin2));
    assert_eq!(cos(F(x), Some(2)), F(cos2));
    assert_eq!(sin(F(x), Some(0)), F(0.0));
}

#[test]
fn pythagorean_identity() {
    for precision in [50, 100, 200] {
        let mut x = -2.0 * std::f64::consts::PI;
        while x <= 2.0 * std::f64::consts::PI {
            let s = sin(F(x), Some(precision)).0;
            let c = cos(F(x), Some(precision)).0;
            assert!((s * s + c * c - 1.0).abs() < 1e-12);
            x += 0.1;
        }
    }
}

#[test]
fn exp_undoes_ln() {
    for precision in [20, 50, 100] {
        for x in [0.5, 1.0, 2.0, 3.0] {
            let back = exp(ln(F(x), Some(precision)), Some(precision)).0;
            assert!(close(back, x, 1e-10));
        }
    }
}

#[test]
fn logarithms_against_std() {
    assert!(close(ln(F(10.0), None).0, 10.0f64.ln(), 1e-6));
    assert!(close(ln(F(std::f64::consts::E), None).0, 1.0, 1e-14));
    assert!(close(lg(F(std::f64::consts::E), None).0, std::f64::consts::E.log10(), 1e-14));
    assert!(close(lb(F(3.0), None).0, 3.0f64.log2(), 1e-14));
    assert!(close(log(F(3.5), F(2.0), None).0, 3.5f64.log(2.0), 1e-14));
}

#[test]
fn ln_first_terms_exactly() {
    let x = 3.0f64;
    let u = (x - 1.0) / (x + 1.0);
    let expected = 2.0 * (0.0 + u / 1.0 + (u * (u * u)) / 3.0);
    assert_eq!(ln(F(x), Some(2)), F(expected));
    assert_eq!(ln(F(1.0), None), F(0.0));
}

#[test]
fn derived_logarithms_scale_ln() {
    let l = ln(F(7.0), Some(60)).0;
    assert_eq!(lg(F(7.0), Some(60)), F(l * std::f64::consts::LOG10_E));
    assert_eq!(lb(F(7.0), Some(60)), F(l * std::f64::consts::LOG2_E));
}

#[test]
fn log_is_exactly_a_quotient_of_ln() {
    for (a, b, p) in [(3.5, 10.0, None), (100.0, 10.0, Some(40)), (0.3, 7.0, Some(3))] {
        let expected = ln(F(a), p).0 / ln(F(b), p).0;
        assert_eq!(log(F(a), F(b), p), F(expected));
    }
}

#[test]
fn more_terms_never_worse() {
    let cases: [(fn(F, Option<usize>) -> F, f64, f64); 4] = [
        (ln, 2.0, 2.0f64.ln()),
        (exp, 1.5, 1.5f64.exp()),
        (sin, 1.0, 1.0f64.sin()),
        (cos, 1.0, 1.0f64.cos()),
    ];
    for (f, x, reference) in cases {
        let mut last = f64::INFINITY;
        for precision in 1..40 {
            let error = (f(F(x), Some(precision)).0 - reference).abs();
            // once converged, only rounding of the last bits may move
            assert!(error <= last + 4.0 * f64::EPSILON * reference.abs());
            last = error;
        }
    }
}

#[test]
fn angle_conversions() {
    assert!(close(degrees(F(std::f64::consts::PI)).0, 180.0, 1e-15));
    assert!(close(radians(F(180.0)).0, std::f64::consts::PI, 1e-15));
    let d = Degrees::new(F(90.0));
    assert_eq!(d.get(), F(90.0));
    let r = d.radians();
    assert!(close(r.get().0, std::f64::consts::FRAC_PI_2, 1e-15));
    assert!(close(r.degrees().get().0, 90.0, 1e-14));
    assert_eq!(Radians::new(F(1.0)).degrees().get(), degrees(F(1.0)));
}
