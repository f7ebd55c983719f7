use biquad::design::Coefficients;
use biquad::plan::{basis, fill, Basis, Slot};
use biquad::error::BiquadError;
use biquad::filter::Biquad;
use biquad::kind::FilterType;
use biquad::scalar::{Number, Real, Sample};
use num_traits::{Float, NumCast};

/// A number of `F` under the arithmetic of `num_traits::Float`.
#[derive(Clone, Copy, Debug, PartialEq)]
struct Ieee<F>(F);

impl<F: Float> Number for Ieee<F> {
    fn plus(self, rhs: Self) -> Self {
        Ieee(self.0 + rhs.0)
    }

    fn minus(self, rhs: Self) -> Self {
        Ieee(self.0 - rhs.0)
    }

    fn times(self, rhs: Self) -> Self {
        Ieee(self.0 * rhs.0)
    }
}

impl Real for Ieee<f64> {
    fn whole(n: i32) -> Self {
        Ieee(n as f64)
    }

    fn pi() -> Self {
        Ieee(std::f64::consts::PI)
    }

    fn over(self, rhs: Self) -> Self {
        Ieee(self.0 / rhs.0)
    }

    fn negated(self) -> Self {
        Ieee(-self.0)
    }

    fn sqrt(self) -> Self {
        Ieee(f64::sqrt(self.0))
    }

    fn sin(self) -> Self {
        Ieee(f64::sin(self.0))
    }

    fn cos(self) -> Self {
        Ieee(f64::cos(self.0))
    }

    fn powf(self, exponent: Self) -> Self {
        Ieee(f64::powf(self.0, exponent.0))
    }

    fn less_than(self, rhs: Self) -> bool {
        self.0 < rhs.0
    }
}

impl<F: Float> Sample for Ieee<F> {
    type Wide = Ieee<f64>;

    fn zero() -> Self {
        Ieee(F::zero())
    }

    fn one() -> Self {
        Ieee(F::one())
    }

    fn from_rate(hertz: u32) -> Option<Self> {
        <F as NumCast>::from(hertz).map(Ieee)
    }

    fn narrow(wide: Ieee<f64>) -> Option<Self> {
        <F as NumCast>::from(wide.0).map(Ieee)
    }

    fn widen(self) -> Option<Ieee<f64>> {
        self.0.to_f64().map(Ieee)
    }

    fn equals(self, rhs: Self) -> bool {
        self.0 == rhs.0
    }
}

/// A sample type of small range: it holds no rate above 96 kHz and no
/// coefficient beyond 1.25, and the rate 8 kHz cannot be widened.
#[derive(Clone, Copy, Debug, PartialEq)]
struct Small(f64);

impl Number for Small {
    fn plus(self, rhs: Self) -> Self {
        Small(self.0 + rhs.0)
    }

    fn minus(self, rhs: Self) -> Self {
        Small(self.0 - rhs.0)
    }

    fn times(self, rhs: Self) -> Self {
        Small(self.0 * rhs.0)
    }
}

impl Sample for Small {
    type Wide = Ieee<f64>;

    fn zero() -> Self {
        Small(0.0)
    }

    fn one() -> Self {
        Small(1.0)
    }

    fn from_rate(hertz: u32) -> Option<Self> {
        if hertz > 96000 {
            None
        } else {
            Some(Small(hertz as f64))
        }
    }

    fn narrow(wide: Ieee<f64>) -> Option<Self> {
        if wide.0.abs() > 1.25 {
            None
        } else {
            Some(Small(wide.0))
        }
    }

    fn widen(self) -> Option<Ieee<f64>> {
        if self.0 == 8000.0 {
            None
        } else {
            Some(Ieee(self.0))
        }
    }

    fn equals(self, rhs: Self) -> bool {
        self.0 == rhs.0
    }
}

const ALL_TYPES: [FilterType; 9] = [
    FilterType::Lowpass,
    FilterType::Highpass,
    FilterType::Bandpass1,
    FilterType::Bandpass2,
    FilterType::Notch,
    FilterType::Allpass,
    FilterType::Peak,
    FilterType::Lowshelf,
    FilterType::Highshelf,
];

fn w(x: f64) -> Ieee<f64> {
    Ieee(x)
}

fn close(got: f64, expected: f64) -> bool {
    (got - expected).abs() <= 1e-12 * expected.abs().max(1.0)
}

/// The coefficients as `[b0, b1, b2, a0, a1, a2]`.
fn six(c: &Coefficients<Ieee<f64>>) -> [f64; 6] {
    [c.b0.0, c.b1.0, c.b2.0, c.a0.0, c.a1.0, c.a2.0]
}

/// The coefficients of a design at 48 kHz, 1 kHz, 6 dB and a quality
/// factor of 0.7.
fn designed(filter_type: FilterType) -> [f64; 6] {
    let mut filter = Biquad::<Ieee<f64>>::default();
    filter.prepare(48000).unwrap();
    filter.set(filter_type, w(1000.), w(6.), w(0.7)).unwrap();
    six(&filter.coefficients())
}

fn assert_six(got: [f64; 6], expected: [f64; 6]) {
    for i in 0..6 {
        assert!(close(got[i], expected[i]), "coefficient {}: {} is not {}", i, got[i], expected[i]);
    }
}

fn with_coefficients(b0: f64, b1: f64, b2: f64, a0: f64, a1: f64, a2: f64) -> Biquad<Ieee<f64>> {
    let mut filter = Biquad::<Ieee<f64>>::default();
    filter.set_coefficients(Coefficients {
        sample_rate: Ieee(0.0),
        a0: Ieee(a0),
        a1: Ieee(a1),
        a2: Ieee(a2),
        b0: Ieee(b0),
        b1: Ieee(b1),
        b2: Ieee(b2),
    });
    filter
}

#[test]
fn it_works() {
    let mut filter = Biquad::<Ieee<f32>>::default();
    filter.prepare(44100).unwrap();
    filter.set(FilterType::Peak, Ieee(100.), Ieee(2.), Ieee(1.)).unwrap();
}

#[test]
fn a_new_filter_is_zeroed() {
    let filter = Biquad::<Ieee<f32>>::default();
    let c = filter.coefficients();
    assert_eq!(c.sample_rate, Ieee(0.0));
    assert_eq!([c.b0, c.b1, c.b2, c.a0, c.a1, c.a2], [Ieee(0.0f32); 6]);
    let c = Coefficients::<Ieee<f64>>::default();
    assert_eq!(c.sample_rate, Ieee(0.0));
    assert_eq!(six(&c), [0.0; 6]);
}

#[test]
fn design_before_prepare_is_refused() {
    for filter_type in ALL_TYPES {
        let mut filter = Biquad::<Ieee<f64>>::default();
        let r = filter.set(filter_type, w(100.), w(0.), w(1.));
        assert_eq!(r, Err(BiquadError::NoSampleRate));
        assert_eq!(six(&filter.coefficients()), [0.0; 6]);
        let mut filter = Biquad::<Ieee<f32>>::default();
        let r = filter.set(filter_type, w(100.), w(0.), w(1.));
        assert_eq!(r, Err(BiquadError::NoSampleRate));
    }
}

#[test]
fn a_rate_of_zero_is_no_rate() {
    let mut filter = Biquad::<Ieee<f64>>::default();
    assert_eq!(filter.prepare(0), Ok(()));
    let r = filter.set(FilterType::Lowpass, w(100.), w(0.), w(1.));
    assert_eq!(r, Err(BiquadError::NoSampleRate));
}

#[test]
fn no_sample_rate_comes_before_every_other_error() {
    for filter_type in ALL_TYPES {
        let mut filter = Biquad::<Ieee<f64>>::default();
        assert_eq!(
            filter.set(filter_type, w(1e9), w(0.), w(-1.)),
            Err(BiquadError::NoSampleRate)
        );
        assert_eq!(
            filter.set(filter_type, w(0.5), w(0.), w(-1.)),
            Err(BiquadError::NoSampleRate)
        );
    }
}

#[test]
fn frequency_over_nyquist_is_refused() {
    for rate in [1u32, 8000, 44100, 48000, 192000] {
        for filter_type in ALL_TYPES {
            let mut filter = Biquad::<Ieee<f64>>::default();
            filter.prepare(rate).unwrap();
            let over = rate as f64 / 2.0 + 0.25;
            assert_eq!(
                filter.set(filter_type, w(over), w(0.), w(1.)),
                Err(BiquadError::FrequencyOverNyquist)
            );
        }
    }
}

#[test]
fn frequency_at_nyquist_is_accepted() {
    let mut filter = Biquad::<Ieee<f64>>::default();
    filter.prepare(44100).unwrap();
    assert_eq!(filter.set(FilterType::Lowpass, w(22050.), w(0.), w(1.)), Ok(()));
    assert_eq!(
        filter.set(FilterType::Lowpass, w(22050.000001), w(0.), w(1.)),
        Err(BiquadError::FrequencyOverNyquist)
    );
}

#[test]
fn frequency_below_one_is_refused() {
    for frequency in [0.999999, 0.5, 0.0, -1.0, -30000.0] {
        for filter_type in ALL_TYPES {
            let mut filter = Biquad::<Ieee<f64>>::default();
            filter.prepare(44100).unwrap();
            assert_eq!(
                filter.set(filter_type, w(frequency), w(0.), w(1.)),
                Err(BiquadError::FrequencyTooLow)
            );
        }
    }
}

#[test]
fn frequency_of_one_is_accepted() {
    let mut filter = Biquad::<Ieee<f64>>::default();
    filter.prepare(44100).unwrap();
    assert_eq!(filter.set(FilterType::Highpass, w(1.0), w(0.), w(1.)), Ok(()));
}

#[test]
fn negative_q_is_refused() {
    for q in [-1e-9, -0.7, -100.0] {
        for filter_type in ALL_TYPES {
            let mut filter = Biquad::<Ieee<f64>>::default();
            filter.prepare(44100).unwrap();
            assert_eq!(
                filter.set(filter_type, w(1000.), w(0.), w(q)),
                Err(BiquadError::NegativeQ)
            );
        }
    }
}

#[test]
fn q_of_zero_is_accepted() {
    let mut filter = Biquad::<Ieee<f64>>::default();
    filter.prepare(48000).unwrap();
    assert_eq!(filter.set(FilterType::Bandpass2, w(1000.), w(0.), w(0.0)), Ok(()));
    let c = filter.coefficients();
    // alpha is zero, so the numerator vanishes and a0 = a2 = 1
    assert_eq!(c.b0.0, 0.0);
    assert_eq!(c.b2.0, 0.0);
    assert_eq!(c.a0.0, 1.0);
    assert_eq!(c.a2.0, 1.0);
}

#[test]
fn refusals_come_in_order() {
    // at 1 Hz a frequency of 0.75 is over Nyquist and below one
    let mut filter = Biquad::<Ieee<f64>>::default();
    filter.prepare(1).unwrap();
    assert_eq!(
        filter.set(FilterType::Notch, w(0.75), w(0.), w(-1.)),
        Err(BiquadError::FrequencyOverNyquist)
    );
    // over Nyquist and a negative quality factor
    filter.prepare(44100).unwrap();
    assert_eq!(
        filter.set(FilterType::Notch, w(30000.), w(0.), w(-1.)),
        Err(BiquadError::FrequencyOverNyquist)
    );
    // below one and a negative quality factor
    assert_eq!(
        filter.set(FilterType::Notch, w(0.5), w(0.), w(-1.)),
        Err(BiquadError::FrequencyTooLow)
    );
    // a negative quality factor alone
    assert_eq!(
        filter.set(FilterType::Notch, w(1000.), w(0.), w(-1.)),
        Err(BiquadError::NegativeQ)
    );
    assert_eq!(filter.set(FilterType::Notch, w(1000.), w(0.), w(1.)), Ok(()));
}

#[test]
fn a_frequency_that_is_no_number_is_not_refused() {
    // no comparison holds of it, so nothing refuses it
    let mut filter = Biquad::<Ieee<f64>>::default();
    filter.prepare(44100).unwrap();
    assert_eq!(filter.set(FilterType::Lowpass, w(f64::NAN), w(0.), w(1.)), Ok(()));
    assert!(filter.coefficients().b0.0.is_nan());
}

#[test]
fn a_refused_design_changes_nothing() {
    let mut filter = Biquad::<Ieee<f64>>::default();
    filter.prepare(48000).unwrap();
    filter.set(FilterType::Peak, w(1000.), w(6.), w(0.7)).unwrap();
    let before = six(&filter.coefficients());
    assert!(filter.set(FilterType::Lowpass, w(30000.), w(0.), w(1.)).is_err());
    assert_eq!(six(&filter.coefficients()), before);
    assert!(filter.set(FilterType::Lowpass, w(0.1), w(0.), w(1.)).is_err());
    assert_eq!(six(&filter.coefficients()), before);
    assert!(filter.set(FilterType::Lowpass, w(1000.), w(0.), w(-2.)).is_err());
    assert_eq!(six(&filter.coefficients()), before);
    assert_eq!(filter.coefficients().sample_rate.0, 48000.0);
}

#[test]
fn a_rate_that_cannot_be_held_is_fatal() {
    let mut filter = Biquad::<Small>::default();
    assert_eq!(filter.prepare(96000), Ok(()));
    assert_eq!(filter.coefficients().sample_rate, Small(96000.0));
    assert_eq!(filter.prepare(96001), Err(BiquadError::Fatal));
    assert_eq!(filter.coefficients().sample_rate, Small(96000.0));
    let mut c = Coefficients::<Small>::default();
    assert_eq!(c.set_sample_rate(192000), Err(BiquadError::Fatal));
    assert_eq!(c.sample_rate, Small(0.0));
}

#[test]
fn a_rate_that_cannot_be_widened_is_fatal() {
    let mut filter = Biquad::<Small>::default();
    filter.prepare(8000).unwrap();
    // the conversion comes after the test for a rate and before the others
    assert_eq!(
        filter.set(FilterType::Lowpass, w(1e9), w(0.), w(-1.)),
        Err(BiquadError::Fatal)
    );
    assert_eq!(filter.coefficients().b0, Small(0.0));
}

#[test]
fn a_coefficient_that_cannot_be_held_is_fatal() {
    // at a quarter of the rate and q = 1: b0 = 0.5, b1 = 1, b2 = 0.5, a0 = 1.5
    let mut filter = Biquad::<Small>::default();
    filter.prepare(44100).unwrap();
    assert_eq!(
        filter.set(FilterType::Lowpass, w(11025.), w(0.), w(1.)),
        Err(BiquadError::Fatal)
    );
    let c = filter.coefficients();
    // what came before a0 is stored, a0 and what comes after it is not
    assert!(close(c.b0.0, 0.5));
    assert!(close(c.b1.0, 1.0));
    assert!(close(c.b2.0, 0.5));
    assert_eq!(c.a0, Small(0.0));
    assert_eq!(c.a1, Small(0.0));
    assert_eq!(c.a2, Small(0.0));
    assert_eq!(c.sample_rate, Small(44100.0));
}

#[test]
fn a_design_within_range_succeeds_on_a_small_type() {
    // q = 0.25: a0 = 1.125
    let mut filter = Biquad::<Small>::default();
    filter.prepare(44100).unwrap();
    assert_eq!(filter.set(FilterType::Bandpass2, w(11025.), w(0.), w(0.25)), Ok(()));
    let c = filter.coefficients();
    assert!(close(c.b0.0, 0.125));
    assert_eq!(c.b1, Small(0.0));
    assert!(close(c.b2.0, -0.125));
    assert!(close(c.a0.0, 1.125));
    assert!(close(c.a2.0, 0.875));
}

#[test]
fn messages() {
    assert_eq!(BiquadError::NoSampleRate.message(), "the sample rate must be set first");
    assert_eq!(BiquadError::FrequencyOverNyquist.message(), "the frequency is higher than nyqist");
    assert_eq!(BiquadError::FrequencyTooLow.message(), "the frequency is 0 or lower than 0");
    assert_eq!(BiquadError::NegativeQ.message(), "q is lower than zero");
    assert_eq!(BiquadError::Fatal.message(), "fatal number conversion error");
}

#[test]
fn shared_quantities() {
    let b = basis(w(48000.), w(1000.), w(6.), w(0.7));
    assert!(close(b.a.0, 1.4125375446227544));
    assert!(close(b.omega.0, 0.1308996938995747));
    assert!(close(b.sin.0, 0.13052619222005157));
    assert!(close(b.cos.0, 0.9914448613738104));
    assert!(close(b.alpha.0, 0.045684167277018045));
    assert!(close(b.beta.0, 0.1085914691346826));
}

#[test]
fn alpha_grows_with_q() {
    // alpha is sin / 2 * q: twice the quality factor gives twice the alpha
    let one = basis(w(44100.), w(11025.), w(0.), w(1.));
    let two = basis(w(44100.), w(11025.), w(0.), w(2.));
    assert!(close(one.alpha.0, 0.5));
    assert!(close(two.alpha.0, 1.0));
}

#[test]
fn single_coefficients() {
    let b = Basis { a: w(2.0), omega: w(0.0), sin: w(0.0), cos: w(0.5), alpha: w(0.25), beta: w(3.0) };
    let q = w(4.0);
    let get = |filter_type, slot| fill::<Ieee<f64>>(filter_type, slot, &b, q).unwrap().0;
    assert_eq!(get(FilterType::Lowpass, Slot::B0), 0.25);
    assert_eq!(get(FilterType::Lowpass, Slot::B1), 0.5);
    assert_eq!(get(FilterType::Highpass, Slot::B1), -1.5);
    assert_eq!(get(FilterType::Bandpass1, Slot::B0), 1.0);
    assert_eq!(get(FilterType::Bandpass1, Slot::B1), 0.0);
    assert_eq!(get(FilterType::Bandpass1, Slot::B2), -1.0);
    assert_eq!(get(FilterType::Bandpass2, Slot::B2), -0.25);
    assert_eq!(get(FilterType::Notch, Slot::B0), 1.0);
    assert_eq!(get(FilterType::Notch, Slot::A1), -1.0);
    assert_eq!(get(FilterType::Allpass, Slot::B0), 0.75);
    assert_eq!(get(FilterType::Allpass, Slot::B2), 1.25);
    assert_eq!(get(FilterType::Peak, Slot::B0), 1.5);
    assert_eq!(get(FilterType::Peak, Slot::A0), 1.125);
    assert_eq!(get(FilterType::Peak, Slot::A2), 0.875);
    // (a + 1) - (a - 1) * cos = 2.5, (a + 1) + (a - 1) * cos = 3.5
    // (a - 1) - (a + 1) * cos = -0.5, (a - 1) + (a + 1) * cos = 2.5
    assert_eq!(get(FilterType::Lowshelf, Slot::B0), 11.0);
    assert_eq!(get(FilterType::Lowshelf, Slot::B1), -2.0);
    assert_eq!(get(FilterType::Lowshelf, Slot::B2), -1.0);
    assert_eq!(get(FilterType::Lowshelf, Slot::A0), 6.5);
    assert_eq!(get(FilterType::Lowshelf, Slot::A1), -5.0);
    assert_eq!(get(FilterType::Lowshelf, Slot::A2), 0.5);
    assert_eq!(get(FilterType::Highshelf, Slot::B0), 13.0);
    assert_eq!(get(FilterType::Highshelf, Slot::B1), -10.0);
    assert_eq!(get(FilterType::Highshelf, Slot::B2), 1.0);
    assert_eq!(get(FilterType::Highshelf, Slot::A0), 5.5);
    assert_eq!(get(FilterType::Highshelf, Slot::A1), -1.0);
    assert_eq!(get(FilterType::Highshelf, Slot::A2), -0.5);
}

#[test]
fn valid_parameters_give_the_wide_rate() {
    let mut c = Coefficients::<Ieee<f32>>::default();
    assert_eq!(c.validate(w(100.), w(1.)), Err(BiquadError::NoSampleRate));
    c.set_sample_rate(16777217).unwrap();
    // the rate is held in single precision: 16777217 is rounded to 16777216
    assert_eq!(c.validate(w(100.), w(1.)), Ok(Ieee(16777216.0)));
    assert_eq!(c.validate(w(8388608.5), w(1.)), Err(BiquadError::FrequencyOverNyquist));
    assert_eq!(c.validate(w(0.5), w(1.)), Err(BiquadError::FrequencyTooLow));
    assert_eq!(c.validate(w(100.), w(-1.)), Err(BiquadError::NegativeQ));
}

#[test]
fn lowpass_coefficients() {
    assert_six(
        designed(FilterType::Lowpass),
        [
            0.004277569313094809,
            0.008555138626189618,
            0.004277569313094809,
            1.045684167277018,
            -1.9828897227476208,
            0.9543158327229819,
        ],
    );
}

#[test]
fn highpass_coefficients() {
    assert_six(
        designed(FilterType::Highpass),
        [
            0.9957224306869052,
            -1.9914448613738105,
            0.9957224306869052,
            1.045684167277018,
            -1.9828897227476208,
            0.9543158327229819,
        ],
    );
}

#[test]
fn bandpass1_coefficients() {
    assert_six(
        designed(FilterType::Bandpass1),
        [
            0.03197891709391263,
            0.0,
            -0.03197891709391263,
            1.045684167277018,
            -1.9828897227476208,
            0.9543158327229819,
        ],
    );
}

#[test]
fn bandpass2_coefficients() {
    assert_six(
        designed(FilterType::Bandpass2),
        [
            0.045684167277018045,
            0.0,
            -0.045684167277018045,
            1.045684167277018,
            -1.9828897227476208,
            0.9543158327229819,
        ],
    );
}

#[test]
fn notch_coefficients() {
    assert_six(
        designed(FilterType::Notch),
        [1.0, -1.9828897227476208, 1.0, 1.045684167277018, -1.9828897227476208, 0.9543158327229819],
    );
}

#[test]
fn allpass_coefficients() {
    assert_six(
        designed(FilterType::Allpass),
        [
            0.9543158327229819,
            -1.9828897227476208,
            1.045684167277018,
            1.045684167277018,
            -1.9828897227476208,
            0.9543158327229819,
        ],
    );
}

#[test]
fn peak_coefficients() {
    assert_six(
        designed(FilterType::Peak),
        [
            1.0645306014736142,
            -1.9828897227476208,
            0.9354693985263858,
            1.0323419136368648,
            -1.9828897227476208,
            0.9676580863631353,
        ],
    );
}

#[test]
fn lowshelf_coefficients() {
    assert_six(
        designed(FilterType::Lowshelf),
        [
            2.9834499076152166,
            -5.591841778072785,
            2.676670853258252,
            2.930137242497436,
            -5.608870992220748,
            2.7129543042280706,
        ],
    );
}

#[test]
fn highshelf_coefficients() {
    assert_six(
        designed(FilterType::Highshelf),
        [
            4.138928865925017,
            -7.922740859457287,
            3.8321498115680517,
            2.112120785017438,
            -3.9587208137297303,
            1.8949378467480729,
        ],
    );
}

#[test]
fn a_coefficient_set_on_its_own() {
    let mut c = Coefficients::<Ieee<f64>>::default();
    assert_eq!(
        c.set(FilterType::Allpass, w(1000.), w(6.), w(0.7)),
        Err(BiquadError::NoSampleRate)
    );
    assert_eq!(c.set_sample_rate(48000), Ok(()));
    assert_eq!(c.set(FilterType::Allpass, w(1000.), w(6.), w(0.7)), Ok(()));
    assert_six(six(&c), designed(FilterType::Allpass));
    assert_eq!(c.sample_rate.0, 48000.0);
    // a filter takes it as it is
    let mut filter = Biquad::<Ieee<f64>>::default();
    filter.set_coefficients(c);
    assert_six(six(&filter.coefficients()), designed(FilterType::Allpass));
}

#[test]
fn a_design_replaces_the_one_before() {
    let mut filter = Biquad::<Ieee<f64>>::default();
    filter.prepare(48000).unwrap();
    filter.set(FilterType::Highshelf, w(1000.), w(6.), w(0.7)).unwrap();
    filter.set(FilterType::Notch, w(1000.), w(6.), w(0.7)).unwrap();
    assert_six(six(&filter.coefficients()), designed(FilterType::Notch));
}

#[test]
fn single_precision_coefficients() {
    let mut filter = Biquad::<Ieee<f32>>::default();
    filter.prepare(44100).unwrap();
    filter.set(FilterType::Peak, w(100.), w(2.), w(1.)).unwrap();
    let c = filter.coefficients();
    assert_eq!(c.sample_rate, Ieee(44100.0f32));
    // the design is worked out in double precision and narrowed at the end
    let expected = [
        1.0079927566398619f64,
        -1.999797009734697,
        0.9920072433601382,
        1.0063488722723222,
        -1.999797009734697,
        0.9936511277276778,
    ];
    let got = [c.b0.0, c.b1.0, c.b2.0, c.a0.0, c.a1.0, c.a2.0];
    for i in 0..6 {
        assert!((got[i] as f64 - expected[i]).abs() <= 6e-8, "coefficient {}", i);
        assert!((got[i] - expected[i] as f32).abs() <= f32::EPSILON, "coefficient {}", i);
    }
}

#[test]
fn lowpass_at_a_quarter_of_the_rate() {
    for gain in [0.0, 6.0, -12.0] {
        let mut filter = Biquad::<Ieee<f64>>::default();
        filter.prepare(44100).unwrap();
        filter.set(FilterType::Lowpass, w(11025.), w(gain), w(1.)).unwrap();
        let c = filter.coefficients();
        let eps = 4.0 * f64::EPSILON;
        assert!((c.b0.0 - 0.5).abs() <= eps);
        assert!((c.b1.0 - 1.0).abs() <= eps);
        assert!((c.b2.0 - 0.5).abs() <= eps);
        assert!((c.a0.0 - 1.5).abs() <= eps);
        assert!(c.a1.0.abs() <= eps);
        assert!((c.a2.0 - 0.5).abs() <= eps);
        // the answer to a unit impulse, which is not divided by a0
        let impulse = [1.0, 0.0, 0.0, 0.0, 0.0, 0.0];
        let expected = [0.5, 1.0, 0.25, -0.5, -0.125, 0.25];
        let mut y1 = 0.0;
        let mut y2 = 0.0;
        for n in 0..6 {
            let y = filter.tick(Ieee(impulse[n])).0;
            let by_hand = match n {
                0 => c.b0.0,
                1 => c.b1.0 - c.a1.0 * y1,
                2 => c.b2.0 - c.a1.0 * y1 - c.a2.0 * y2,
                _ => -c.a1.0 * y1 - c.a2.0 * y2,
            };
            assert!((y - by_hand).abs() <= eps, "sample {}", n);
            assert!((y - expected[n]).abs() <= 8.0 * eps, "sample {}", n);
            y2 = y1;
            y1 = y;
        }
    }
}

#[test]
fn tick_evaluates_the_equation() {
    // b0 = 2, b1 = 3, b2 = 5, a1 = 7, a2 = 11
    let mut filter = with_coefficients(2., 3., 5., 1., 7., 11.);
    // 2 * 1
    assert_eq!(filter.tick(Ieee(1.)).0, 2.);
    // 2 * 10 + 3 * 1 - 7 * 2
    assert_eq!(filter.tick(Ieee(10.)).0, 9.);
    // 2 * 100 + 3 * 10 + 5 * 1 - 7 * 9 - 11 * 2
    assert_eq!(filter.tick(Ieee(100.)).0, 150.);
    // 2 * 1000 + 3 * 100 + 5 * 10 - 7 * 150 - 11 * 9
    assert_eq!(filter.tick(Ieee(1000.)).0, 1201.);
}

#[test]
fn a0_is_not_divided_out() {
    let mut plain = with_coefficients(2., 3., 5., 1., 7., 11.);
    let mut scaled = with_coefficients(2., 3., 5., 64., 7., 11.);
    for x in [1., 10., 100., 1000., 0., 0.] {
        assert_eq!(plain.tick(Ieee(x)), scaled.tick(Ieee(x)));
    }
}

#[test]
fn the_history_holds_two_samples_each_way() {
    // the input of one sample before
    let mut filter = with_coefficients(0., 1., 0., 1., 0., 0.);
    let out: Vec<f64> = [1., 2., 3., 4.].iter().map(|x| filter.tick(Ieee(*x)).0).collect();
    assert_eq!(out, [0., 1., 2., 3.]);
    // the input of two samples before
    let mut filter = with_coefficients(0., 0., 1., 1., 0., 0.);
    let out: Vec<f64> = [1., 2., 3., 4.].iter().map(|x| filter.tick(Ieee(*x)).0).collect();
    assert_eq!(out, [0., 0., 1., 2.]);
    // the output of one sample before, with its sign turned
    let mut filter = with_coefficients(1., 0., 0., 1., 1., 0.);
    let out: Vec<f64> = [1., 0., 0., 0.].iter().map(|x| filter.tick(Ieee(*x)).0).collect();
    assert_eq!(out, [1., -1., 1., -1.]);
    // the output of two samples before, with its sign turned
    let mut filter = with_coefficients(1., 0., 0., 1., 0., 1.);
    let out: Vec<f64> = [1., 2., 0., 0., 0., 0.].iter().map(|x| filter.tick(Ieee(*x)).0).collect();
    assert_eq!(out, [1., 2., -1., -2., 1., 2.]);
}

#[test]
fn reset_then_silence() {
    let mut filter = Biquad::<Ieee<f64>>::default();
    filter.reset();
    for _ in 0..4 {
        assert_eq!(filter.tick(Ieee(0.)).0, 0.);
    }
    let mut filter = Biquad::<Ieee<f32>>::default();
    filter.reset();
    for _ in 0..4 {
        assert_eq!(filter.tick(Ieee(0.)).0, 0.);
    }
}

#[test]
fn reset_clears_the_history_and_keeps_the_coefficients() {
    let mut filter = with_coefficients(2., 3., 5., 1., 7., 11.);
    filter.tick(Ieee(1.));
    filter.tick(Ieee(10.));
    filter.reset();
    assert_eq!(six(&filter.coefficients()), [2., 3., 5., 1., 7., 11.]);
    // as from a new filter
    assert_eq!(filter.tick(Ieee(1.)).0, 2.);
    assert_eq!(filter.tick(Ieee(10.)).0, 9.);
}

#[test]
fn process_on_nothing_changes_nothing() {
    let mut filter = with_coefficients(2., 3., 5., 1., 7., 11.);
    filter.tick(Ieee(1.));
    let input: [Ieee<f64>; 0] = [];
    let mut output: [Ieee<f64>; 0] = [];
    filter.process(&input, &mut output);
    // no input, some room
    let mut room = [Ieee(42.); 3];
    filter.process(&input, &mut room);
    assert_eq!(room, [Ieee(42.); 3]);
    // some input, no room
    filter.process(&[Ieee(5.), Ieee(6.)], &mut output);
    // the history is as after the one sample
    assert_eq!(filter.tick(Ieee(10.)).0, 9.);
    assert_eq!(six(&filter.coefficients()), [2., 3., 5., 1., 7., 11.]);
}

#[test]
fn process_is_tick_by_tick() {
    let input = [Ieee(1.), Ieee(10.), Ieee(100.), Ieee(1000.)];
    let mut filter = with_coefficients(2., 3., 5., 1., 7., 11.);
    let mut output = [Ieee(0.); 4];
    filter.process(&input, &mut output);
    assert_eq!(output, [Ieee(2.), Ieee(9.), Ieee(150.), Ieee(1201.)]);
    // the history goes on from block to block
    let mut again = with_coefficients(2., 3., 5., 1., 7., 11.);
    let mut head = [Ieee(0.); 1];
    let mut tail = [Ieee(0.); 3];
    again.process(&input[..1], &mut head);
    again.process(&input[1..], &mut tail);
    assert_eq!(head, [Ieee(2.)]);
    assert_eq!(tail, [Ieee(9.), Ieee(150.), Ieee(1201.)]);
    assert_eq!(filter.tick(Ieee(0.)), again.tick(Ieee(0.)));
}

#[test]
fn process_stops_at_the_shorter() {
    let input = [Ieee(1.), Ieee(10.), Ieee(100.), Ieee(1000.)];
    // more room than input
    let mut filter = with_coefficients(2., 3., 5., 1., 7., 11.);
    let mut output = [Ieee(-1.); 6];
    filter.process(&input, &mut output);
    assert_eq!(output, [Ieee(2.), Ieee(9.), Ieee(150.), Ieee(1201.), Ieee(-1.), Ieee(-1.)]);
    // more input than room: the samples beyond the room do not go in
    let mut filter = with_coefficients(2., 3., 5., 1., 7., 11.);
    let mut output = [Ieee(-1.); 2];
    filter.process(&input, &mut output);
    assert_eq!(output, [Ieee(2.), Ieee(9.)]);
    assert_eq!(filter.tick(Ieee(100.)).0, 150.);
}

#[test]
fn a_new_design_keeps_the_history() {
    // under the first set: 2 * 1
    let mut filter = with_coefficients(2., 3., 5., 1., 7., 11.);
    assert_eq!(filter.tick(Ieee(1.)).0, 2.);
    filter.set_coefficients(Coefficients {
        sample_rate: Ieee(0.),
        a0: Ieee(1.),
        a1: Ieee(19.),
        a2: Ieee(23.),
        b0: Ieee(13.),
        b1: Ieee(17.),
        b2: Ieee(29.),
    });
    // under the second, with the sample and the output of the first:
    // 13 * 10 + 17 * 1 - 19 * 2
    assert_eq!(filter.tick(Ieee(10.)).0, 109.);
    // 13 * 100 + 17 * 10 + 29 * 1 - 19 * 109 - 23 * 2
    assert_eq!(filter.tick(Ieee(100.)).0, -618.);
}

#[test]
fn set_and_prepare_keep_the_history() {
    let mut filter = Biquad::<Ieee<f64>>::default();
    filter.prepare(48000).unwrap();
    filter.set(FilterType::Notch, w(1000.), w(0.), w(0.7)).unwrap();
    let mut twin = Biquad::<Ieee<f64>>::default();
    twin.set_coefficients(filter.coefficients());
    for x in [1., -2., 3.] {
        assert_eq!(filter.tick(Ieee(x)), twin.tick(Ieee(x)));
    }
    // the same design again, a refused design and another rate in between
    filter.set(FilterType::Notch, w(1000.), w(0.), w(0.7)).unwrap();
    assert!(filter.set(FilterType::Notch, w(0.), w(0.), w(0.7)).is_err());
    filter.prepare(48000).unwrap();
    for x in [4., -5., 6.] {
        assert_eq!(filter.tick(Ieee(x)), twin.tick(Ieee(x)));
    }
}

#[test]
fn prepare_keeps_the_coefficients() {
    let mut filter = Biquad::<Ieee<f64>>::default();
    filter.prepare(48000).unwrap();
    filter.set(FilterType::Peak, w(1000.), w(6.), w(0.7)).unwrap();
    let before = six(&filter.coefficients());
    filter.prepare(96000).unwrap();
    assert_eq!(six(&filter.coefficients()), before);
    assert_eq!(filter.coefficients().sample_rate.0, 96000.0);
    // the new rate counts for the next design
    assert_eq!(filter.set(FilterType::Peak, w(40000.), w(6.), w(0.7)), Ok(()));
}

#[test]
fn coefficients_round_trip() {
    let input = [1., -0.5, 0.25, 0.75, -1., 0.];
    let mut filter = Biquad::<Ieee<f64>>::default();
    filter.prepare(48000).unwrap();
    filter.set(FilterType::Lowshelf, w(1000.), w(6.), w(0.7)).unwrap();
    let mut twin = Biquad::<Ieee<f64>>::default();
    twin.prepare(48000).unwrap();
    twin.set(FilterType::Lowshelf, w(1000.), w(6.), w(0.7)).unwrap();
    for (n, x) in input.iter().enumerate() {
        if n == 3 {
            let c = filter.coefficients();
            filter.set_coefficients(c);
        }
        assert_eq!(filter.tick(Ieee(*x)), twin.tick(Ieee(*x)));
    }
    assert_eq!(six(&filter.coefficients()), six(&twin.coefficients()));
}

#[test]
fn injected_coefficients_are_taken_as_they_are() {
    let mut filter = Biquad::<Ieee<f64>>::default();
    filter.set_coefficients(Coefficients {
        sample_rate: Ieee(-1.),
        a0: Ieee(0.),
        a1: Ieee(f64::INFINITY),
        a2: Ieee(0.),
        b0: Ieee(1.),
        b1: Ieee(0.),
        b2: Ieee(0.),
    });
    let c = filter.coefficients();
    assert_eq!(c.sample_rate.0, -1.);
    assert_eq!(c.a1.0, f64::INFINITY);
}
