use audio_filters::complex::Complex;
use audio_filters::filter_band::{
    BandParams, BandType, FilterBand, FilterBandCoefficients, ProcessType,
};
use audio_filters::first_order_iir::{get_z, IIR1Coefficients, IIR1};
use audio_filters::linkwitz_riley::{LinkwitzRileyBand, LinkwitzRileyCoefficients};
use audio_filters::second_order_iir::{IIR2Coefficients, IIR2};
use audio_filters::stereo_filter_band::StereoFilterBand;
use audio_filters::units::{butterworth_cascade_q, cast, Units, ZSample, FP};
use audio_filters::MAX_POLE_COUNT;
use num_traits::{Float, FloatConst, NumCast};

/// A sample of the float type `F`.
#[derive(Clone, Copy, Debug, PartialEq)]
struct S<F>(F);

fn num<F: Float>(x: f64) -> F {
    NumCast::from(x).unwrap()
}

impl<F: Float + FloatConst> FP for S<F> {
    // The `spec_*` items only name results in contracts; nothing calls them.
    fn spec_from_usize(_: usize) -> Self {
        unreachable!()
    }
    fn spec_half() -> Self {
        unreachable!()
    }
    fn spec_twentieth() -> Self {
        unreachable!()
    }
    fn spec_pi() -> Self {
        unreachable!()
    }
    fn spec_tau() -> Self {
        unreachable!()
    }
    fn spec_ln_2() -> Self {
        unreachable!()
    }
    fn spec_frac_1_sqrt_2() -> Self {
        unreachable!()
    }
    fn spec_add(self, _: Self) -> Self {
        unreachable!()
    }
    fn spec_sub(self, _: Self) -> Self {
        unreachable!()
    }
    fn spec_mul(self, _: Self) -> Self {
        unreachable!()
    }
    fn spec_div(self, _: Self) -> Self {
        unreachable!()
    }
    fn spec_neg(self) -> Self {
        unreachable!()
    }
    fn spec_min(self, _: Self) -> Self {
        unreachable!()
    }
    fn spec_max(self, _: Self) -> Self {
        unreachable!()
    }
    fn spec_sqrt(self) -> Self {
        unreachable!()
    }
    fn spec_tan(self) -> Self {
        unreachable!()
    }
    fn spec_sin(self) -> Self {
        unreachable!()
    }
    fn spec_cos(self) -> Self {
        unreachable!()
    }
    fn spec_sinh(self) -> Self {
        unreachable!()
    }
    fn spec_powf(self, _: Self) -> Self {
        unreachable!()
    }
    fn spec_log10(self) -> Self {
        unreachable!()
    }
    fn spec_lt(self, _: Self) -> bool {
        unreachable!()
    }
    fn spec_to_usize(self) -> usize {
        unreachable!()
    }
    fn spec_to_bits(self) -> u64 {
        unreachable!()
    }
    fn spec_from_bits(_: u64) -> Self {
        unreachable!()
    }

    fn from_usize(n: usize) -> Self {
        S(NumCast::from(n).unwrap())
    }
    fn half() -> Self {
        S(num(0.5))
    }
    fn twentieth() -> Self {
        S(F::one() / num(20.0))
    }
    fn pi() -> Self {
        S(F::PI())
    }
    fn tau() -> Self {
        S(F::TAU())
    }
    fn ln_2() -> Self {
        S(F::LN_2())
    }
    fn frac_1_sqrt_2() -> Self {
        S(F::FRAC_1_SQRT_2())
    }
    fn add(self, rhs: Self) -> Self {
        S(self.0 + rhs.0)
    }
    fn sub(self, rhs: Self) -> Self {
        S(self.0 - rhs.0)
    }
    fn mul(self, rhs: Self) -> Self {
        S(self.0 * rhs.0)
    }
    fn div(self, rhs: Self) -> Self {
        S(self.0 / rhs.0)
    }
    fn neg(self) -> Self {
        S(-self.0)
    }
    fn min(self, rhs: Self) -> Self {
        S(self.0.min(rhs.0))
    }
    fn max(self, rhs: Self) -> Self {
        S(self.0.max(rhs.0))
    }
    fn sqrt(self) -> Self {
        S(self.0.sqrt())
    }
    fn tan(self) -> Self {
        S(self.0.tan())
    }
    fn sin(self) -> Self {
        S(self.0.sin())
    }
    fn cos(self) -> Self {
        S(self.0.cos())
    }
    fn sinh(self) -> Self {
        S(self.0.sinh())
    }
    fn powf(self, exponent: Self) -> Self {
        S(self.0.powf(exponent.0))
    }
    fn log10(self) -> Self {
        S(self.0.log10())
    }
    fn lt(self, rhs: Self) -> bool {
        self.0 < rhs.0
    }
    fn same(self, rhs: Self) -> bool {
        self.to_bits() == rhs.to_bits()
    }
    fn to_usize(self) -> usize {
        if self.0.is_nan() || self.0 < F::one() {
            0
        } else {
            self.0.floor().to_usize().unwrap_or(usize::MAX)
        }
    }
    fn to_bits(self) -> u64 {
        self.0.to_f64().unwrap().to_bits()
    }
    fn from_bits(bits: u64) -> Self {
        S(NumCast::from(f64::from_bits(bits)).unwrap())
    }
}

fn rand(x: f32) -> f32 {
    ((x * 12.9898).sin() * 43758.5453).fract()
}

fn rand64(x: f64) -> f64 {
    ((x * 12.989846024374758).sin() * 43758.545347294991945).fract()
}

fn q64(order: usize, pole: usize) -> f64 {
    butterworth_cascade_q::<S<f64>>(order, pole).0
}

fn highshelf4() -> FilterBandCoefficients<S<f64>> {
    FilterBandCoefficients::highshelf(S(1000.0), S(6.0), S(1.0), S(4.0), S(48000.0))
}

fn norm(c: Complex<S<f64>>) -> f64 {
    num_complex::Complex::new(c.re.0, c.im.0).norm()
}

#[test]
fn filter_band_test_filter_band() {
    let mut left: Vec<f32> = (0..1000).map(|x| rand(x as f32)).collect();
    let mut right: Vec<f32> = (0..1000).map(|x| rand(x as f32)).collect();

    let fs = S(48000.0f32);
    let cutoff_hz = S(1000.0f32);
    let gain = S(6.0f32);
    let width = S(1.0f32);
    let order = S(4.0f32);

    let coeffs = FilterBandCoefficients::highshelf(cutoff_hz, gain, width, order, fs);

    let mut filter_left = FilterBand::from(&coeffs);
    let mut filter_right = FilterBand::from(&coeffs);

    for i in 0..1000 {
        left[i] = filter_left.process(S(left[i])).0;
        right[i] = filter_right.process(S(right[i])).0;
    }

    println!("{} {}", left[500], right[500]);
    assert_eq!(left[500], right[500]);
    assert!(left[500].is_finite());
}

#[test]
fn lib_it_works() {
    assert_eq!(2 + 2, 4);
}

#[test]
fn linkwitz_riley_test_filter_band() {
    let mut left: Vec<f32> = (0..1000).map(|x| rand(x as f32)).collect();
    let mut right: Vec<f32> = (0..1000).map(|x| rand(x as f32)).collect();

    let fs = S(48000.0f32);
    let f0 = S(1000.0f32);
    let gain = S(6.0f32);
    let width = S(1.0f32);
    let slope = S(4.0f32);

    let coeffs = FilterBandCoefficients::highshelf(f0, gain, width, slope, fs);
    let lw_coeffs = LinkwitzRileyCoefficients::from(coeffs);

    let mut filter_left = LinkwitzRileyBand::from(&lw_coeffs);
    let mut filter_right = LinkwitzRileyBand::from(&lw_coeffs);

    for i in 0..1000 {
        left[i] = filter_left.process(S(left[i])).0;
        right[i] = filter_right.process(S(right[i])).0;
    }

    println!("{} {}", left[500], right[500]);
    assert_eq!(left[500], right[500]);
    assert!(left[500].is_finite());
}

#[test]
fn stereo_filter_band_it_works() {
    let mut left: Vec<f32> = (0..1000).map(|x| rand(x as f32)).collect();
    let mut right: Vec<f32> = (1000..2000).map(|x| rand(x as f32)).collect();

    let sample_rate = S(48000.0f32);
    let f0 = S(1000.0f32);
    let gain = S(6.0f32);
    let bandwidth = S(1.0f32);
    let slope = S(4.0f32);
    let mut filter = StereoFilterBand::new(sample_rate);
    filter.update(BandType::HighShelf, f0, gain, bandwidth, slope, sample_rate);
    for i in 0..1000 {
        let [l_out, r_out] = filter.process(S(left[i]), S(right[i]));
        left[i] = l_out.0;
        right[i] = r_out.0;
    }
    assert!(left[500].is_finite() && right[500].is_finite());
    assert_ne!(left[500], right[500]);
}

#[test]
fn test_butterworth_cascade_q() {
    assert_eq!(0.7071067811865475, q64(2, 0));

    assert_eq!(0.5, q64(3, 0));
    assert_eq!(0.9999999999999998, q64(3, 1));

    assert_eq!(0.541196100146197, q64(4, 0));
    assert_eq!(1.3065629648763764, q64(4, 1));

    assert_eq!(0.5, q64(5, 0));
    assert_eq!(0.6180339887498948, q64(5, 1));
    assert_eq!(1.6180339887498947, q64(5, 2));

    assert_eq!(0.5176380902050415, q64(6, 0));
    assert_eq!(0.7071067811865475, q64(6, 1));
    assert_eq!(1.931851652578135, q64(6, 2));
    println!("{}", q64(5, 2));
}

#[test]
fn butterworth_table_orders_one_to_eight() {
    let table: [&[f64]; 8] = [
        &[0.5],
        &[0.7071],
        &[0.5, 1.0],
        &[0.5412, 1.3066],
        &[0.5, 0.6180, 1.6180],
        &[0.5176, 0.7071, 1.9319],
        &[0.5, 0.5550, 0.8019, 2.2470],
        &[0.5098, 0.6013, 0.9000, 2.5629],
    ];
    for order in 1..=8usize {
        let row = table[order - 1];
        for (pole, expected) in row.iter().enumerate() {
            let q = q64(order, pole);
            assert!((q - expected).abs() < 5e-5, "order {} pole {}: {}", order, pole, q);
            // The closed form: pair `i` of `n` sits at the angle (2i + 1) pi / 2n.
            let pair = if order % 2 == 1 { pole as f64 - 0.5 } else { pole as f64 };
            if !(order % 2 == 1 && pole == 0) {
                let angle = (2.0 * pair + 1.0) * std::f64::consts::PI / (2.0 * order as f64);
                assert!((q - 1.0 / (2.0 * angle.cos())).abs() < 1e-12);
            }
        }
    }
    assert_eq!(0.5549581320873712, q64(7, 1));
    assert_eq!(2.5629154477415055, q64(8, 3));
    let single: f32 = butterworth_cascade_q::<S<f32>>(4, 1).0;
    assert!((single - 1.3065629).abs() < 1e-6);
}

#[test]
fn unit_conversions() {
    assert_eq!(S(0.5f64).to_range(S(10.0), S(20.0)), S(15.0));
    assert_eq!(S(15.0f64).from_range(S(10.0), S(20.0)), S(0.5));
    assert_eq!(S(20.0f64).db_to_lin(), S(10.0));
    assert_eq!(S(0.0f64).db_to_lin(), S(1.0));
    assert_eq!(S(10.0f64).lin_to_db(), S(20.0));
    assert_eq!(S(-1.0f64).lin_to_db(), S(f64::NEG_INFINITY));
    assert_eq!(S(3.0f64).sign(S(-1.0)), S(-3.0));
    assert_eq!(S(3.0f64).sign(S(2.0)), S(3.0));
    assert_eq!(S(3.0f64).sign(S(0.0)), S(3.0));
    assert_eq!(S(1.0f64).bandwidth_to_q(S(1000.0), S(48000.0)), S(1.4142135623730951));
    assert_eq!(S(2.0f64).bandwidth_to_q(S(20.0), S(44100.0)), S(0.6666666666666666));
}

#[test]
fn sample_conversions() {
    assert_eq!(S::<f64>::from_usize(40), S(40.0));
    assert_eq!(S(4.9f64).to_usize(), 4);
    assert_eq!(S(0.99f64).to_usize(), 0);
    assert_eq!(S(-3.0f64).to_usize(), 0);
    assert_eq!(S(f64::NAN).to_usize(), 0);
    assert_eq!(S(f64::INFINITY).to_usize(), usize::MAX);
    assert_eq!(cast::<S<f64>, S<f32>>(S(0.1)), S(0.1f32));
    assert_eq!(cast::<S<f32>, S<f64>>(S(0.1)), S(0.1f32 as f64));
    assert_eq!(cast::<S<f64>, S<f64>>(S(-0.0)).0.to_bits(), (-0.0f64).to_bits());
    assert!(S(0.0f64).same(S(0.0)));
    assert!(!S(0.0f64).same(S(-0.0)));
    assert!(S(f64::NAN).same(S(f64::NAN)));
}

#[test]
fn complex_arithmetic_is_that_of_num_complex() {
    let pairs = [(0.3, -1.7, 2.5, 0.125), (1e-3, 4.0, -7.5, 1e3), (-0.9, 0.1, 0.2, -0.6)];
    for (a, b, c, d) in pairs {
        let x = Complex::new(S(a), S(b));
        let y = Complex::new(S(c), S(d));
        let nx = num_complex::Complex::new(a, b);
        let ny = num_complex::Complex::new(c, d);
        let same = |got: Complex<S<f64>>, want: num_complex::Complex<f64>| {
            assert_eq!((got.re.0, got.im.0), (want.re, want.im));
        };
        same(x.add(y), nx + ny);
        same(x.sub(y), nx - ny);
        same(x.mul(y), nx * ny);
        same(x.div(y), nx / ny);
        same(x.add_real(S(c)), nx + c);
        same(x.scale(S(c)), nx * c);
        same(x.radd(S(c)), c + nx);
        same(x.rsub(S(c)), c - nx);
        same(x.rmul(S(c)), c * nx);
        assert_eq!(x.norm_sqr().0, nx.norm_sqr());
    }
    let one = Complex::<S<f64>>::one();
    assert_eq!((one.re.0, one.im.0), (1.0, 0.0));
}

#[test]
fn unit_circle_points() {
    let z = get_z(S(12000.0f64), S(48000.0));
    // A quarter of the sample rate is a quarter turn clockwise: -i.
    assert!(z.re.0.abs() < 1e-15);
    assert_eq!(z.im.0, -1.0);
    let zs = ZSample::new(S(12000.0f64), S(48000.0));
    assert_eq!((zs.pow1.re.0, zs.pow1.im.0), (z.re.0, z.im.0));
    let sq = z.mul(z);
    assert_eq!((zs.pow2.re.0, zs.pow2.im.0), (sq.re.0, sq.im.0));
    assert!((zs.pow2.re.0 + 1.0).abs() < 1e-15);
    let dc = get_z(S(0.0f64), S(48000.0));
    assert_eq!(dc.re.0, 1.0);
    assert_eq!(dc.im.0, 0.0);
}

#[test]
fn first_order_coefficients() {
    let g = 0.06554346281523822;
    let a1 = 0.061511768503621556;
    let lp = IIR1Coefficients::lowpass(S(1000.0), S(6.0), S(48000.0));
    assert_eq!((lp.a.0, lp.g.0, lp.a1.0, lp.m0.0, lp.m1.0, lp.fs.0), (1.0, g, a1, 0.0, 1.0, 48000.0));
    let hp = IIR1Coefficients::highpass(S(1000.0), S(6.0), S(48000.0));
    assert_eq!((hp.a.0, hp.g.0, hp.a1.0, hp.m0.0, hp.m1.0), (1.0, g, a1, 1.0, -1.0));
    let ap = IIR1Coefficients::allpass(S(1000.0), S(6.0), S(48000.0));
    assert_eq!((ap.a.0, ap.g.0, ap.a1.0, ap.m0.0, ap.m1.0), (1.0, g, a1, 1.0, -2.0));
    let ls = IIR1Coefficients::lowshelf(S(1000.0), S(6.0), S(48000.0));
    assert_eq!(
        (ls.a.0, ls.g.0, ls.a1.0, ls.m0.0, ls.m1.0),
        (1.9952623149688795, 0.0464012181939864, 0.044343620197682475, 1.0, 0.9952623149688795)
    );
    let hs = IIR1Coefficients::highshelf(S(1000.0), S(6.0), S(48000.0));
    assert_eq!(
        (hs.a.0, hs.g.0, hs.a1.0, hs.m0.0, hs.m1.0),
        (1.9952623149688795, 0.0925826020311094, 0.08473739363870383, 1.9952623149688795, -0.9952623149688795)
    );
    let e = IIR1Coefficients::<S<f64>>::empty();
    assert_eq!((e.a.0, e.g.0, e.a1.0, e.m0.0, e.m1.0, e.fs.0), (0.0, 0.0, 0.0, 0.0, 0.0, 0.0));
    let single = lp.cast::<S<f32>>();
    assert_eq!(single.g.0, g as f32);
}

fn parts2(c: IIR2Coefficients<S<f64>>) -> [f64; 10] {
    [c.a.0, c.g.0, c.gpow2.0, c.k.0, c.a1.0, c.a2.0, c.a3.0, c.m0.0, c.m1.0, c.m2.0]
}

#[test]
fn second_order_coefficients() {
    let (f0, db, q, fs) = (S(1000.0), S(6.0), S(1.4142135623730951), S(48000.0));
    let g = 0.06554346281523822;
    let g2 = 0.004295945517812516;
    let k = 0.7071067811865475;
    let (a1, a2, a3) = (0.9517988389761345, 0.06238419181001918, 0.004088875956158681);
    assert_eq!(parts2(IIR2Coefficients::lowpass(f0, db, q, fs)), [1.0, g, g2, k, a1, a2, a3, 0.0, 0.0, 1.0]);
    assert_eq!(parts2(IIR2Coefficients::highpass(f0, db, q, fs)), [1.0, g, g2, k, a1, a2, a3, 1.0, -k, -1.0]);
    assert_eq!(parts2(IIR2Coefficients::bandpass(f0, db, q, fs)), [1.0, g, g2, k, a1, a2, a3, 0.0, 1.0, 0.0]);
    assert_eq!(parts2(IIR2Coefficients::notch(f0, db, q, fs)), [1.0, g, g2, k, a1, a2, a3, 1.0, -k, 0.0]);
    assert_eq!(
        parts2(IIR2Coefficients::allpass(f0, db, q, fs)),
        [1.0, g, g2, k, a1, a2, a3, 1.0, -1.414213562373095, 0.0]
    );
    let a = 1.4125375446227544;
    assert_eq!(
        parts2(IIR2Coefficients::lowshelf(f0, db, q, fs)),
        [
            a,
            0.055147951179343936,
            0.003041296519279302,
            k,
            0.959659018471727,
            0.05292322869949592,
            0.002918607632573055,
            1.0,
            0.29170809529679753,
            0.9952623149688797
        ]
    );
    assert_eq!(
        parts2(IIR2Coefficients::highshelf(f0, db, q, fs)),
        [
            a,
            0.07789855154984603,
            0.006068184333564018,
            k,
            0.9423731484488199,
            0.0734095032836311,
            0.005718493975788529,
            1.9952623149688797,
            -0.41204863667711883,
            -0.9952623149688797
        ]
    );
    assert_eq!(
        parts2(IIR2Coefficients::bell(f0, db, q, fs)),
        [
            a,
            g,
            g2,
            0.5005932648504533,
            0.9642210714563892,
            0.063198387942671,
            0.004142241190103457,
            1.0,
            0.4982216116328917,
            0.0
        ]
    );
    assert_eq!(IIR2Coefficients::lowpass(f0, db, q, fs).fs.0, 48000.0);
    assert_eq!(parts2(IIR2Coefficients::empty()), [0.0; 10]);
    let cascade = IIR2Coefficients::<S<f64>>::empty_cascade();
    assert_eq!(cascade.len(), MAX_POLE_COUNT);
    assert!(cascade.iter().all(|c| parts2(*c) == [0.0; 10]));
    let single = IIR2Coefficients::lowpass(f0, db, q, fs).cast::<S<f32>>();
    assert_eq!(single.gpow2.0, (g as f32) * (g as f32));
}

#[test]
fn cutoff_beyond_half_the_sample_rate_is_held_there() {
    let fs = S(48000.0f64);
    let at = IIR1Coefficients::lowpass(S(24000.0), S(0.0), fs);
    let over = IIR1Coefficients::lowpass(S(48000.0), S(0.0), fs);
    assert_eq!((over.g.0, over.a1.0), (at.g.0, at.a1.0));
    assert_eq!((over.g.0, over.a1.0), (1.633123935319537e16, 0.9999999999999999));
    let q = S(0.7071067811865475);
    let makers2: [fn(S<f64>, S<f64>, S<f64>, S<f64>) -> IIR2Coefficients<S<f64>>; 8] = [
        IIR2Coefficients::lowpass,
        IIR2Coefficients::highpass,
        IIR2Coefficients::bandpass,
        IIR2Coefficients::notch,
        IIR2Coefficients::allpass,
        IIR2Coefficients::lowshelf,
        IIR2Coefficients::highshelf,
        IIR2Coefficients::bell,
    ];
    for make in makers2 {
        let at = make(S(24000.0), S(6.0), q, fs);
        let over = make(S(48000.0), S(6.0), q, fs);
        assert_eq!(parts2(over), parts2(at));
        assert!(parts2(over).iter().all(|x| x.is_finite()));
    }
    let makers1: [fn(S<f64>, S<f64>, S<f64>) -> IIR1Coefficients<S<f64>>; 5] = [
        IIR1Coefficients::lowpass,
        IIR1Coefficients::highpass,
        IIR1Coefficients::allpass,
        IIR1Coefficients::lowshelf,
        IIR1Coefficients::highshelf,
    ];
    for make in makers1 {
        let c = make(S(48000.0), S(6.0), fs);
        assert!([c.a.0, c.g.0, c.a1.0, c.m0.0, c.m1.0].iter().all(|x| x.is_finite()));
    }
    for kind in [BandType::LowPass, BandType::HighShelf, BandType::Bell, BandType::Notch] {
        for slope in [1.0, 4.0, 5.0] {
            let at = FilterBandCoefficients::filter_type_1(S(24000.0), S(1.0), S(slope), S(6.0), fs, kind);
            let over = FilterBandCoefficients::filter_type_1(S(48000.0), S(1.0), S(slope), S(6.0), fs, kind);
            for i in 0..MAX_POLE_COUNT {
                assert_eq!(parts2(over.iir2[i]), parts2(at.iir2[i]));
                assert!(parts2(over.iir2[i]).iter().all(|x| x.is_finite()));
            }
            assert_eq!(over.iir1.g.0, at.iir1.g.0);
            assert!(over.iir1.g.0.is_finite() && over.iir1.a1.0.is_finite());
        }
    }
    let single = IIR1Coefficients::lowpass(S(48000.0f32), S(0.0), S(48000.0));
    assert!(single.g.0.is_finite() && single.a1.0.is_finite());
}

#[test]
fn first_order_stage_steps() {
    let mut stage = IIR1::new(IIR1Coefficients {
        a: S(1.0f64),
        g: S(1.0),
        a1: S(0.5),
        m0: S(0.25),
        m1: S(2.0),
        fs: S(48000.0),
    });
    // v1 = 0.5 * (1 - 0) = 0.5, v2 = 0.5, memory = 1.0, y = 0.25 + 2 * 0.5
    assert_eq!(stage.process(S(1.0)), S(1.25));
    // v1 = 0.5 * (1 - 1) = 0, v2 = 1, memory = 1, y = 0.25 + 2
    assert_eq!(stage.process(S(1.0)), S(2.25));
    // v1 = 0.5 * (3 - 1) = 1, v2 = 2, memory = 3
    assert_eq!(stage.process_partial(S(3.0)), S(2.0));
    // v1 = 0.5 * (3 - 3) = 0, v2 = 3
    assert_eq!(stage.process_partial(S(3.0)), S(3.0));
    stage.update_coefficients(IIR1Coefficients::lowpass(S(1000.0), S(0.0), S(48000.0)));
    assert_eq!(stage.get_coefficients().m1, S(1.0));
    // The memory, 3, is kept: v1 = a1 * (3 - 3) = 0, v2 = 3, y = 0 * 3 + 1 * 3.
    assert_eq!(stage.process(S(3.0)), S(3.0));
}

#[test]
fn second_order_stage_steps() {
    let mut stage = IIR2::new(IIR2Coefficients {
        a: S(1.0f64),
        g: S(1.0),
        gpow2: S(1.0),
        k: S(1.0),
        a1: S(0.5),
        a2: S(0.25),
        a3: S(0.125),
        m0: S(1.0),
        m1: S(2.0),
        m2: S(4.0),
        fs: S(48000.0),
    });
    // v3 = 8, v1 = 0.25 * 8 = 2, v2 = 0.125 * 8 = 1, y = 8 + 4 + 4,
    // memories 4 and 2
    assert_eq!(stage.process(S(8.0)), S(16.0));
    // v3 = 8 - 2 = 6, v1 = 0.5 * 4 + 0.25 * 6 = 3.5, v2 = 2 + 1 + 0.75 = 3.75,
    // y = 8 + 7 + 15, memories 3 and 5.5
    assert_eq!(stage.process(S(8.0)), S(30.0));
    stage.update_coefficients(IIR2Coefficients {
        m0: S(0.0),
        m1: S(1.0),
        m2: S(0.0),
        ..stage.get_coefficients()
    });
    // v3 = 5.5 - 5.5 = 0, v1 = 0.5 * 3 = 1.5
    assert_eq!(stage.process(S(5.5)), S(1.5));
}

#[test]
fn stage_responses() {
    let fs = S(48000.0f64);
    let low1 = IIR1Coefficients::lowpass(S(1000.0), S(0.0), fs);
    let high1 = IIR1Coefficients::highpass(S(1000.0), S(0.0), fs);
    assert!((norm(low1.get_bode_sample(get_z(S(0.0), fs))) - 1.0).abs() < 1e-12);
    assert!((norm(low1.get_bode_sample(get_z(S(1000.0), fs))) - 0.5f64.sqrt()).abs() < 1e-12);
    assert!(norm(low1.get_bode_sample(get_z(S(24000.0), fs))) < 1e-12);
    assert!(norm(high1.get_bode_sample(get_z(S(0.0), fs))) < 1e-12);
    assert!((norm(high1.get_bode_sample(get_z(S(24000.0), fs))) - 1.0).abs() < 1e-12);
    let q = S(0.7071067811865475);
    let low2 = IIR2Coefficients::lowpass(S(1000.0), S(0.0), q, fs);
    assert!((norm(low2.get_bode_sample(ZSample::new(S(0.0), fs))) - 1.0).abs() < 1e-12);
    assert!((norm(low2.get_bode_sample(ZSample::new(S(1000.0), fs))) - 0.5f64.sqrt()).abs() < 1e-9);
    let all2 = IIR2Coefficients::allpass(S(1000.0), S(0.0), q, fs);
    for f in [10.0, 500.0, 1000.0, 9000.0] {
        assert!((norm(all2.get_bode_sample(ZSample::new(S(f), fs))) - 1.0).abs() < 1e-9);
    }
    let bell = IIR2Coefficients::bell(S(1000.0), S(6.0), S(1.4142135623730951), fs);
    let peak = norm(bell.get_bode_sample(ZSample::new(S(1000.0), fs)));
    assert!((20.0 * peak.log10() - 6.0).abs() < 1e-9);
    let notch = IIR2Coefficients::notch(S(1000.0), S(0.0), q, fs);
    assert!(norm(notch.get_bode_sample(ZSample::new(S(1000.0), fs))) < 1e-9);
}

#[test]
fn band_shape_follows_the_order() {
    let shape = |slope: f64| {
        let c = FilterBandCoefficients::lowpass(S(1000.0), S(1.0), S(slope), S(48000.0));
        (c.process, c.iir2_cascade_count, c.iir1_enabled)
    };
    assert_eq!(shape(0.0), (ProcessType::ProcessEvenOrderCascade, 0, false));
    assert_eq!(shape(1.0), (ProcessType::ProcessIIR1Only, 0, true));
    assert_eq!(shape(1.9), (ProcessType::ProcessIIR1Only, 0, true));
    assert_eq!(shape(2.0), (ProcessType::ProcessEvenOrderCascade, 1, false));
    assert_eq!(shape(3.0), (ProcessType::ProcessOddOrderCascade, 1, true));
    assert_eq!(shape(4.0), (ProcessType::ProcessEvenOrderCascade, 2, false));
    assert_eq!(shape(5.5), (ProcessType::ProcessOddOrderCascade, 2, true));
    assert_eq!(shape(8.0), (ProcessType::ProcessEvenOrderCascade, 4, false));
    assert_eq!(shape(31.0), (ProcessType::ProcessOddOrderCascade, 15, true));
    assert_eq!(shape(32.0), (ProcessType::ProcessEvenOrderCascade, 16, false));
    // Beyond the capacity the order is held at the capacity.
    assert_eq!(shape(33.0), (ProcessType::ProcessEvenOrderCascade, 16, false));
    assert_eq!(shape(1e30), (ProcessType::ProcessEvenOrderCascade, 16, false));
    assert_eq!(shape(f64::INFINITY), (ProcessType::ProcessEvenOrderCascade, 16, false));
    assert_eq!(shape(-4.0), (ProcessType::ProcessEvenOrderCascade, 0, false));
    assert_eq!(shape(f64::NAN), (ProcessType::ProcessEvenOrderCascade, 0, false));
    assert_eq!(MAX_POLE_COUNT, 32);
}

#[test]
fn cascade_stages_have_butterworth_qualities() {
    let c = highshelf4();
    assert_eq!(c.iir2[0].k.0, 1.847759065022573);
    assert_eq!(c.iir2[1].k.0, 0.7653668647301796);
    // Each of the two stages has 2 * 6 / 4 = 3 dB: a = 10 ^ (3 / 40).
    assert_eq!(c.iir2[0].a.0, 10f64.powf(3.0 / 40.0));
    assert_eq!(c.iir2[1].a.0, 10f64.powf(3.0 / 40.0));
    assert_eq!(parts2(c.iir2[2]), [0.0; 10]);
    assert_eq!(c.iir1.g.0, 0.0);

    let c = FilterBandCoefficients::lowshelf(S(1000.0), S(6.0), S(1.0), S(5.0), S(48000.0));
    assert_eq!(c.iir2[0].k.0, 1.6180339887498947);
    assert_eq!(c.iir2[1].k.0, 0.6180339887498948);
    // The first-order stage has 6 / 5 dB, each second-order stage 12 / 5 dB.
    assert_eq!(c.iir1.a.0, 10f64.powf(6.0 / 5.0 / 20.0));
    assert_eq!(c.iir2[0].a.0, 10f64.powf(6.0 / 5.0 * 2.0 / 40.0));
    assert_eq!(c.iir1.m1.0, c.iir1.a.0 - 1.0);
    assert_eq!(parts2(c.iir2[2]), [0.0; 10]);

    let c = FilterBandCoefficients::highpass(S(1000.0), S(1.0), S(1.0), S(48000.0));
    assert_eq!((c.iir1.m0.0, c.iir1.m1.0, c.iir1.g.0), (1.0, -1.0, 0.06554346281523822));
    assert_eq!(parts2(c.iir2[0]), [0.0; 10]);
    let c = FilterBandCoefficients::allpass(S(1000.0), S(1.0), S(3.0), S(48000.0));
    assert_eq!((c.iir1.m0.0, c.iir1.m1.0), (1.0, -2.0));
    assert_eq!(c.iir2[0].k.0, 1.0 / (0.9999999999999998 * (1.4142135623730951 * std::f64::consts::FRAC_1_SQRT_2)));
    assert_eq!(c.iir2[0].m1.0, -2.0 * c.iir2[0].k.0);
}

#[test]
fn single_stage_bands() {
    let q = 1.4142135623730951;
    let (f0, fs) = (S(1000.0f64), S(48000.0));
    let bell = FilterBandCoefficients::bell(f0, S(6.0), S(1.0), fs);
    let notch = FilterBandCoefficients::notch(f0, S(6.0), S(1.0), fs);
    let bandpass = FilterBandCoefficients::bandpass(f0, S(6.0), S(1.0), fs);
    for c in [bell, notch, bandpass] {
        assert_eq!((c.process, c.iir2_cascade_count, c.iir1_enabled), (ProcessType::ProcessIIR2Only, 0, false));
        assert_eq!(parts2(c.iir2[1]), [0.0; 10]);
        assert_eq!(c.iir1.g.0, 0.0);
    }
    assert_eq!(parts2(bell.iir2[0]), parts2(IIR2Coefficients::bell(f0, S(6.0), S(q), fs)));
    assert_eq!(parts2(notch.iir2[0]), parts2(IIR2Coefficients::notch(f0, S(0.0), S(q), fs)));
    assert_eq!(parts2(bandpass.iir2[0]), parts2(IIR2Coefficients::bandpass(f0, S(0.0), S(q), fs)));
    // These kinds are one stage whatever order is asked for.
    for slope in [1.0, 2.0, 7.0] {
        let c = FilterBandCoefficients::filter_type_1(f0, S(1.0), S(slope), S(6.0), fs, BandType::Bell);
        assert_eq!(c.process, ProcessType::ProcessIIR2Only);
        assert_eq!(parts2(c.iir2[0]), parts2(bell.iir2[0]));
    }
    let by_kind = FilterBandCoefficients::filter_type_1(f0, S(1.0), S(4.0), S(6.0), fs, BandType::HighShelf);
    let by_name = highshelf4();
    for i in 0..MAX_POLE_COUNT {
        assert_eq!(parts2(by_kind.iir2[i]), parts2(by_name.iir2[i]));
    }
    let p = BandParams {
        kind: BandType::HighShelf,
        cutoff_hz: f0,
        gain_db: S(6.0),
        bandwidth_oct: S(1.0),
        slope: S(4.0),
        sample_rate_hz: fs,
    };
    assert_eq!(parts2(p.design().iir2[1]), parts2(by_name.iir2[1]));
    assert!(p.same(&p.clone()));
    assert!(!p.same(&BandParams { gain_db: S(6.5), ..p }));
    assert!(!p.same(&BandParams { kind: BandType::LowShelf, ..p }));
}

#[test]
fn band_runs_the_routine_of_its_order() {
    let fs = S(48000.0f64);
    let input: Vec<f64> = (0..64).map(|x| rand64(x as f64)).collect();
    for slope in [0.0, 1.0, 2.0, 3.0, 4.0, 7.0] {
        let coeffs = FilterBandCoefficients::lowpass(S(1000.0), S(1.0), S(slope), fs);
        let mut by_mode = FilterBand::from(&coeffs);
        by_mode.update(&coeffs);
        let mut by_name = by_mode;
        let mut first = IIR1::new(coeffs.iir1);
        let mut stages: Vec<IIR2<S<f64>>> = coeffs.iir2.iter().map(|c| IIR2::new(*c)).collect();
        assert_eq!(by_mode.get_process(), coeffs.process);
        for x in &input {
            let y = by_mode.process(S(*x));
            let named = match coeffs.process {
                ProcessType::ProcessIIR1Only => by_name.process_iir1_only(S(*x)),
                ProcessType::ProcessIIR2Only => by_name.process_iir2_only(S(*x)),
                ProcessType::ProcessEvenOrderCascade => by_name.process_even_order_cascade(S(*x)),
                ProcessType::ProcessOddOrderCascade => by_name.process_odd_order_cascade(S(*x)),
            };
            let mut by_hand = S(*x);
            if coeffs.iir1_enabled {
                by_hand = first.process(by_hand);
            }
            for stage in stages.iter_mut().take(coeffs.iir2_cascade_count) {
                by_hand = stage.process(by_hand);
            }
            assert_eq!(y, named);
            assert_eq!(y, by_hand);
        }
    }
    // Order 0 has no stage: the signal passes as it is.
    let mut none = FilterBand::from(&FilterBandCoefficients::lowpass(S(1000.0), S(1.0), S(0.0), fs));
    assert_eq!(none.process(S(0.375)), S(0.375));
    let bell = FilterBandCoefficients::bell(S(1000.0), S(6.0), S(1.0), fs);
    let mut band = FilterBand::from(&bell);
    let mut stage = IIR2::new(bell.iir2[0]);
    for x in &input {
        assert_eq!(band.process(S(*x)), stage.process(S(*x)));
    }
}

#[test]
fn a_band_from_coefficients_starts_every_stage_from_the_first() {
    let coeffs = highshelf4();
    let mut fresh = FilterBand::from(&coeffs);
    let mut updated = FilterBand::from(&coeffs);
    updated.update(&coeffs);
    let seen = fresh.coefficients();
    assert_eq!(parts2(seen.iir2[1]), parts2(coeffs.iir2[0]));
    assert_eq!(parts2(seen.iir2[31]), parts2(coeffs.iir2[0]));
    assert_eq!((seen.process, seen.iir2_cascade_count, seen.iir1_enabled), (coeffs.process, 2, false));
    let seen = updated.coefficients();
    for i in 0..MAX_POLE_COUNT {
        assert_eq!(parts2(seen.iir2[i]), parts2(coeffs.iir2[i]));
    }
    let mut a = [IIR2::new(coeffs.iir2[0]), IIR2::new(coeffs.iir2[0])];
    let mut b = [IIR2::new(coeffs.iir2[0]), IIR2::new(coeffs.iir2[1])];
    let mut last = (0.0, 0.0);
    for i in 0..1000 {
        let x = S(rand64(i as f64));
        let y = fresh.process(x);
        let mid = a[0].process(x);
        assert_eq!(y, a[1].process(mid));
        let z = updated.process(x);
        let mid = b[0].process(x);
        assert_eq!(z, b[1].process(mid));
        if i == 500 {
            last = (y.0, z.0);
        }
    }
    assert_eq!(last, (-1.8667512705219462, -1.929670253574741));
}

#[test]
fn a_cascade_count_beyond_the_capacity_is_held() {
    let mut coeffs = FilterBandCoefficients::lowpass(S(1000.0f64), S(1.0), S(4.0), S(48000.0));
    coeffs.iir2_cascade_count = 1000;
    let mut band = FilterBand::from(&coeffs);
    assert_eq!(band.coefficients().iir2_cascade_count, MAX_POLE_COUNT);
    assert!(band.process(S(1.0)).0.is_finite());
    let mut other = FilterBand::new(S(48000.0));
    other.update(&coeffs);
    assert_eq!(other.coefficients().iir2_cascade_count, MAX_POLE_COUNT);
    assert!(other.process(S(1.0)).0.is_finite());
    let z = ZSample::new(S(100.0), S(48000.0));
    assert!(norm(coeffs.get_bode_sample(z)).is_finite());
}

#[test]
fn update_keeps_the_memories() {
    let fs = S(48000.0f64);
    let slow = FilterBandCoefficients::lowpass(S(100.0), S(1.0), S(4.0), fs);
    let open = FilterBandCoefficients::lowpass(S(20000.0), S(1.0), S(4.0), fs);
    let mut warm = FilterBand::from(&slow);
    warm.update(&slow);
    for _ in 0..2000 {
        warm.process(S(1.0));
    }
    let mut cold = FilterBand::from(&open);
    cold.update(&open);
    warm.update(&open);
    // The warm band has settled at 1 and goes on from there; the cold one
    // starts from rest.
    let (w, c) = (warm.process(S(1.0)).0, cold.process(S(1.0)).0);
    assert!((w - 1.0).abs() < 1e-3, "{}", w);
    assert!((c - 1.0).abs() > 0.05, "{}", c);
}

#[test]
fn a_new_band_passes_the_signal() {
    let mut band = FilterBand::new(S(48000.0f64));
    assert_eq!(band.get_process(), ProcessType::ProcessIIR2Only);
    for i in 0..100 {
        let x = S(rand64(i as f64));
        assert_eq!(band.process(x), x);
    }
    let mut stereo = StereoFilterBand::new(S(48000.0f64));
    let [l, r] = stereo.process(S(0.25), S(-0.75));
    assert_eq!((l, r), (S(0.25), S(-0.75)));
    let z = ZSample::new(S(300.0f64), S(48000.0));
    assert!((norm(band.get_bode_sample(z)) - 1.0).abs() < 1e-12);
}

#[test]
fn setting_the_same_parameters_twice_changes_nothing() {
    let fs = S(48000.0f64);
    let mut once = FilterBand::new(fs);
    let mut twice = FilterBand::new(fs);
    for i in 0..50 {
        let x = S(rand64(i as f64));
        once.process(x);
        twice.process(x);
    }
    once.set_params(BandType::LowShelf, S(300.0), S(-4.0), S(1.5), S(5.0), fs);
    twice.set_params(BandType::LowShelf, S(300.0), S(-4.0), S(1.5), S(5.0), fs);
    for i in 50..100 {
        let x = S(rand64(i as f64));
        assert_eq!(once.process(x), twice.process(x));
    }
    twice.set_params(BandType::LowShelf, S(300.0), S(-4.0), S(1.5), S(5.0), fs);
    assert_eq!(once.get_process(), twice.get_process());
    let (a, b) = (once.coefficients(), twice.coefficients());
    for i in 0..MAX_POLE_COUNT {
        assert_eq!(parts2(a.iir2[i]), parts2(b.iir2[i]));
    }
    assert_eq!(a.iir1.a1, b.iir1.a1);
    for i in 100..400 {
        let x = S(rand64(i as f64));
        assert_eq!(once.process(x), twice.process(x));
    }
    // Other parameters do change the band.
    twice.set_params(BandType::LowShelf, S(300.0), S(-4.5), S(1.5), S(5.0), fs);
    assert_ne!(once.process(S(1.0)), twice.process(S(1.0)));
    let set = once.coefficients();
    let asked = FilterBandCoefficients::lowshelf(S(300.0), S(-4.0), S(1.5), S(5.0), fs);
    assert_eq!((set.process, set.iir2_cascade_count, set.iir1_enabled), (asked.process, 2, true));
    for i in 0..MAX_POLE_COUNT {
        assert_eq!(parts2(set.iir2[i]), parts2(asked.iir2[i]));
    }
}

#[test]
fn a_band_that_mimics_runs_alike() {
    let fs = S(48000.0f64);
    let mut lead = FilterBand::new(fs);
    let mut follower = FilterBand::new(fs);
    lead.set_params(BandType::HighPass, S(80.0), S(0.0), S(1.0), S(3.0), fs);
    follower.mimic_band(&lead);
    assert_eq!(follower.get_process(), ProcessType::ProcessOddOrderCascade);
    for i in 0..300 {
        let x = S(rand64(i as f64));
        assert_eq!(lead.process(x), follower.process(x));
    }
    // The follower has the parameters too: setting them again is no change.
    let before = follower;
    follower.set_params(BandType::HighPass, S(80.0), S(0.0), S(1.0), S(3.0), fs);
    let mut before = before;
    assert_eq!(before.process(S(0.5)), follower.process(S(0.5)));
}

#[test]
fn stereo_channels_fed_alike_put_out_alike() {
    let fs = S(48000.0f32);
    let mut filter = StereoFilterBand::new(fs);
    for (n, kind) in [BandType::HighShelf, BandType::LowPass, BandType::Bell, BandType::AllPass]
        .into_iter()
        .enumerate()
    {
        filter.update(kind, S(1000.0), S(6.0), S(1.0), S(2.0 + n as f32), fs);
        for i in 0..500 {
            let x = S(rand((n * 500 + i) as f32));
            let [l, r] = filter.process(x, x);
            assert_eq!(l.0.to_bits(), r.0.to_bits());
        }
    }
    let z = ZSample::new(S(1000.0f32), fs);
    let y = filter.get_bode_sample(z);
    assert!((y.re.0 * y.re.0 + y.im.0 * y.im.0 - 1.0).abs() < 1e-4);
}

#[test]
fn band_response_is_the_product_of_its_stages() {
    let fs = S(48000.0f64);
    let z = ZSample::new(S(700.0), fs);
    let c = FilterBandCoefficients::lowshelf(S(1000.0), S(6.0), S(1.0), S(5.0), fs);
    let want = c.iir1.get_bode_sample(z.pow1).mul(c.iir2[0].get_bode_sample(z)).mul(c.iir2[1].get_bode_sample(z));
    let got = c.get_bode_sample(z);
    assert_eq!((got.re, got.im), (want.re, want.im));
    let c = highshelf4();
    let want = c.iir2[0].get_bode_sample(z).mul(c.iir2[1].get_bode_sample(z));
    let got = c.get_bode_sample(z);
    assert_eq!((got.re, got.im), (want.re, want.im));
    let c = FilterBandCoefficients::lowpass(S(1000.0), S(1.0), S(1.0), fs);
    let (got, want) = (c.get_bode_sample(z), c.iir1.get_bode_sample(z.pow1));
    assert_eq!((got.re, got.im), (want.re, want.im));
    let c = FilterBandCoefficients::bell(S(1000.0), S(6.0), S(1.0), fs);
    let (got, want) = (c.get_bode_sample(z), c.iir2[0].get_bode_sample(z));
    assert_eq!((got.re, got.im), (want.re, want.im));
    let c = FilterBandCoefficients::lowpass(S(1000.0), S(1.0), S(0.0), fs);
    let got = c.get_bode_sample(z);
    assert_eq!((got.re.0, got.im.0), (1.0, 0.0));
    // A shelf of 6 dB reaches 6 dB far above its corner and 0 dB far below.
    let high = 20.0 * norm(highshelf4().get_bode_sample(ZSample::new(S(20000.0), fs))).log10();
    let low = 20.0 * norm(highshelf4().get_bode_sample(ZSample::new(S(20.0), fs))).log10();
    assert!((high - 6.0).abs() < 0.01 && low.abs() < 0.01, "{} {}", high, low);
    let mut band = FilterBand::from(&highshelf4());
    band.update(&highshelf4());
    let (got, want) = (band.get_bode_sample(z), highshelf4().get_bode_sample(z));
    assert_eq!((got.re, got.im), (want.re, want.im));
}

#[test]
fn lowpass_and_highpass_add_up_to_a_flat_response_far_from_the_cutoff() {
    let fs = S(48000.0f64);
    for order in [1.0, 2.0, 3.0, 4.0, 6.0] {
        let lp = FilterBandCoefficients::lowpass(S(1000.0), S(1.0), S(order), fs);
        let hp = FilterBandCoefficients::highpass(S(1000.0), S(1.0), S(order), fs);
        for f in [5.0, 10.0, 20.0, 20000.0, 23000.0] {
            let z = ZSample::new(S(f), fs);
            let sum = lp.get_bode_sample(z).add(hp.get_bode_sample(z));
            assert!((norm(sum) - 1.0).abs() < 0.03, "order {} at {} Hz: {}", order, f, norm(sum));
        }
    }
}

#[test]
fn linkwitz_riley_is_the_band_run_twice() {
    let fs = S(48000.0f64);
    for slope in [1.0, 2.0, 3.0] {
        let coeffs = FilterBandCoefficients::lowpass(S(1000.0), S(1.0), S(slope), fs);
        let lw = LinkwitzRileyCoefficients::from(coeffs);
        let mut band = LinkwitzRileyBand::from(&lw);
        band.update(&lw);
        let mut first = FilterBand::from(&coeffs);
        first.update(&coeffs);
        let mut second = first;
        assert_eq!(band.get_process(), coeffs.process);
        let mut by_name = band;
        for i in 0..200 {
            let x = S(rand64(i as f64));
            let y = band.process(x);
            assert_eq!(y, second.process(first.process(x)));
            let named = match coeffs.process {
                ProcessType::ProcessIIR1Only => by_name.process_iir1_only(x),
                ProcessType::ProcessIIR2Only => by_name.process_iir2_only(x),
                ProcessType::ProcessEvenOrderCascade => by_name.process_even_order_cascade(x),
                ProcessType::ProcessOddOrderCascade => by_name.process_odd_order_cascade(x),
            };
            assert_eq!(y, named);
        }
        let z = ZSample::new(S(1000.0), fs);
        let one = coeffs.get_bode_sample(z);
        let (got, want) = (lw.get_bode_sample(z), one.mul(one));
        assert_eq!((got.re, got.im), (want.re, want.im));
        // At the cutoff a Butterworth band is 3 dB down, the pair 6 dB.
        assert!((norm(got) - 0.5).abs() < 1e-9);
    }
    let bell = LinkwitzRileyCoefficients::from(FilterBandCoefficients::bell(S(1000.0), S(3.0), S(1.0), fs));
    let mut band = LinkwitzRileyBand::from(&bell);
    let mut stage = [IIR2::new(bell.coeffs.iir2[0]), IIR2::new(bell.coeffs.iir2[0])];
    for i in 0..50 {
        let x = S(rand64(i as f64));
        let mid = stage[0].process(x);
        assert_eq!(band.process_iir2_only(x), stage[1].process(mid));
    }
}
