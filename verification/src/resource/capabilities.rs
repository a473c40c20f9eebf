//! Rates of grains and samples.

use vstd::prelude::*;
use crate::schema::v1_3_x::{
    FlowAudioCodedGrainRate, FlowAudioCodedSampleRate, FlowDataGrainRate, FlowVideoCodedGrainRate,
};

verus! {

/// A rate as a fraction. Without a denominator the rate is the numerator.
#[derive(Clone, Copy, Debug, PartialEq, Eq, Structural)]
pub struct GrainRate {
    pub denominator: Option<i64>,
    pub numerator: i64,
}

impl GrainRate {
    /// The rate as the grain rate of a video flow.
    pub fn into_video_grain_rate(self) -> (r: FlowVideoCodedGrainRate)
        ensures
            r == (FlowVideoCodedGrainRate {
                denominator: self.denominator,
                numerator: self.numerator,
            }),
    {
        FlowVideoCodedGrainRate { denominator: self.denominator, numerator: self.numerator }
    }

    /// The rate as the grain rate of an audio flow.
    pub fn into_audio_grain_rate(self) -> (r: FlowAudioCodedGrainRate)
        ensures
            r == (FlowAudioCodedGrainRate {
                denominator: self.denominator,
                numerator: self.numerator,
            }),
    {
        FlowAudioCodedGrainRate { denominator: self.denominator, numerator: self.numerator }
    }

    /// The rate as the grain rate of a data flow.
    pub fn into_data_grain_rate(self) -> (r: FlowDataGrainRate)
        ensures
            r == (FlowDataGrainRate { denominator: self.denominator, numerator: self.numerator }),
    {
        FlowDataGrainRate { denominator: self.denominator, numerator: self.numerator }
    }

    /// The rate as the sample rate of an audio flow.
    pub fn into_sample_rate(self) -> (r: FlowAudioCodedSampleRate)
        ensures
            r == (FlowAudioCodedSampleRate {
                denominator: self.denominator,
                numerator: self.numerator,
            }),
    {
        FlowAudioCodedSampleRate { denominator: self.denominator, numerator: self.numerator }
    }
}

} // verus!
