//! Selection of the visualization variant used by the render loop.
//!
//! There are exactly three variants, chosen by an enumerated value. Each
//! variant is held persistently by the manager, never rebuilt per frame;
//! the render layer asks the manager which variant is current and draws
//! with it.

use vstd::prelude::*;

verus! {

/// The fixed set of visualization variants.
#[derive(Clone, Copy, PartialEq, Eq, Structural, Debug)]
pub enum VisualizationType {
    Starfield,
    BarSpectrum,
    WaveForms,
}

impl VisualizationType {
    /// Human-readable name of the variant, as shown in the selection menu.
    pub fn label(&self) -> (r: &'static str)
        ensures
            self is Starfield ==> r@ == "Starfield"@,
            self is BarSpectrum ==> r@ == "Bar Spectrum"@,
            self is WaveForms ==> r@ == "Wave Forms"@,
    {
        match self {
            VisualizationType::Starfield => "Starfield",
            VisualizationType::BarSpectrum => "Bar Spectrum",
            VisualizationType::WaveForms => "Wave Forms",
        }
    }
}

/// The starfield variant: a 3D star flight with a warp effect.
pub struct StarfieldVisualization;

impl StarfieldVisualization {
    pub fn new() -> Self {
        StarfieldVisualization
    }

    pub fn name(&self) -> (r: &'static str)
        ensures
            r@ == "Starfield"@,
    {
        "Starfield"
    }

    pub fn description(&self) -> (r: &'static str)
        ensures
            r@ == "3D starfield with warp effect"@,
    {
        "3D starfield with warp effect"
    }
}

/// The bar-spectrum variant: vertical bars driven by the bass signal.
pub struct BarSpectrumVisualization;

impl BarSpectrumVisualization {
    pub fn new() -> Self {
        BarSpectrumVisualization
    }

    pub fn name(&self) -> (r: &'static str)
        ensures
            r@ == "Bar Spectrum"@,
    {
        "Bar Spectrum"
    }

    pub fn description(&self) -> (r: &'static str)
        ensures
            r@ == "Audio spectrum visualization with vertical bars"@,
    {
        "Audio spectrum visualization with vertical bars"
    }
}

/// The waveform variant: oscilloscope-style overlaid curves.
pub struct WaveFormsVisualization;

impl WaveFormsVisualization {
    pub fn new() -> Self {
        WaveFormsVisualization
    }

    pub fn name(&self) -> (r: &'static str)
        ensures
            r@ == "Wave Forms"@,
    {
        "Wave Forms"
    }

    pub fn description(&self) -> (r: &'static str)
        ensures
            r@ == "Oscilloscope-style wave form visualization"@,
    {
        "Oscilloscope-style wave form visualization"
    }
}

/// Holds one instance of every variant and remembers which one is current.
pub struct VisualizationManager {
    current_type: VisualizationType,
    pub starfield: StarfieldVisualization,
    pub bar_spectrum: BarSpectrumVisualization,
    pub waveforms: WaveFormsVisualization,
}

impl VisualizationManager {
    /// The variant the manager is currently set to.
    pub closed spec fn spec_current_type(self) -> VisualizationType {
        self.current_type
    }

    /// The manager starts on the starfield variant.
    pub fn new() -> (r: Self)
        ensures
            r.spec_current_type() == VisualizationType::Starfield,
    {
        VisualizationManager {
            current_type: VisualizationType::Starfield,
            starfield: StarfieldVisualization::new(),
            bar_spectrum: BarSpectrumVisualization::new(),
            waveforms: WaveFormsVisualization::new(),
        }
    }

    pub fn set_visualization_type(&mut self, vis_type: VisualizationType)
        ensures
            final(self).spec_current_type() == vis_type,
    {
        self.current_type = vis_type;
    }

    pub fn current_type(&self) -> (r: VisualizationType)
        ensures
            r == self.spec_current_type(),
    {
        self.current_type
    }

    /// Every selectable variant, with its menu name and description,
    /// in the fixed menu order.
    pub fn get_available_visualizations(&self) -> (r: Vec<(VisualizationType, &'static str, &'static str)>)
        ensures
            r@.len() == 3,
            r@[0].0 == VisualizationType::Starfield,
            r@[1].0 == VisualizationType::BarSpectrum,
            r@[2].0 == VisualizationType::WaveForms,
            r@[0].1@ == "Starfield"@,
            r@[1].1@ == "Bar Spectrum"@,
            r@[2].1@ == "Wave Forms"@,
    {
        let mut v: Vec<(VisualizationType, &'static str, &'static str)> = Vec::new();
        v.push((VisualizationType::Starfield, self.starfield.name(), self.starfield.description()));
        v.push((VisualizationType::BarSpectrum, self.bar_spectrum.name(), self.bar_spectrum.description()));
        v.push((VisualizationType::WaveForms, self.waveforms.name(), self.waveforms.description()));
        v
    }
}

} // verus!
