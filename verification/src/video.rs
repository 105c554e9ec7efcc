//! Video frame scaling: scaler configuration and its checks.
use crate::error::Error;
use vstd::prelude::*;

verus! {

/// Scaling algorithm.
#[derive(Debug, Copy, Clone, PartialEq, Eq, Structural)]
pub enum Algorithm {
    FastBilinear,
    Bilinear,
    Bicubic,
}

impl Algorithm {
    /// The algorithm ID understood by the native scaler.
    pub open spec fn spec_id(self) -> usize {
        match self {
            Algorithm::FastBilinear => 0,
            Algorithm::Bilinear => 1,
            Algorithm::Bicubic => 2,
        }
    }

    /// Get algorithm ID.
    pub fn id(&self) -> (r: usize)
        ensures
            r == self.spec_id(),
    {
        match self {
            Algorithm::FastBilinear => 0,
            Algorithm::Bilinear => 1,
            Algorithm::Bicubic => 2,
        }
    }
}

/// The settings of a frame scaler builder.
pub struct ScalerSettings {
    pub sformat: i32,
    pub swidth: i32,
    pub sheight: i32,
    pub tformat: Option<i32>,
    pub twidth: i32,
    pub theight: i32,
    pub algorithm: Algorithm,
}

/// Builder for a video frame scaler.
pub struct FrameScalerBuilder {
    sformat: i32,
    swidth: i32,
    sheight: i32,
    tformat: Option<i32>,
    twidth: i32,
    theight: i32,
    algorithm: Algorithm,
}

impl FrameScalerBuilder {
    /// The settings so far (model).
    pub closed spec fn spec_settings(self) -> ScalerSettings {
        ScalerSettings {
            sformat: self.sformat,
            swidth: self.swidth,
            sheight: self.sheight,
            tformat: self.tformat,
            twidth: self.twidth,
            theight: self.theight,
            algorithm: self.algorithm,
        }
    }

    /// Create a new video frame scaler builder: no source format (-1), zero
    /// sizes, target format equal to the source one, bicubic scaling.
    pub fn new() -> (r: FrameScalerBuilder)
        ensures
            r.spec_settings() == (ScalerSettings {
                sformat: -1i32,
                swidth: 0i32,
                sheight: 0i32,
                tformat: None,
                twidth: 0i32,
                theight: 0i32,
                algorithm: Algorithm::Bicubic,
            }),
    {
        FrameScalerBuilder {
            sformat: -1,
            swidth: 0,
            sheight: 0,
            tformat: None,
            twidth: 0,
            theight: 0,
            algorithm: Algorithm::Bicubic,
        }
    }

    /// Set source pixel format.
    pub fn source_format(self, format: i32) -> (r: FrameScalerBuilder)
        ensures
            r.spec_settings() == (ScalerSettings { sformat: format, ..self.spec_settings() }),
    {
        FrameScalerBuilder { sformat: format, ..self }
    }

    /// Set source frame width (stored as a C `int`).
    pub fn source_width(self, width: usize) -> (r: FrameScalerBuilder)
        ensures
            r.spec_settings() == (ScalerSettings { swidth: width as i32, ..self.spec_settings() }),
    {
        FrameScalerBuilder { swidth: width as i32, ..self }
    }

    /// Set source frame height (stored as a C `int`).
    pub fn source_height(self, height: usize) -> (r: FrameScalerBuilder)
        ensures
            r.spec_settings() == (ScalerSettings { sheight: height as i32, ..self.spec_settings() }),
    {
        FrameScalerBuilder { sheight: height as i32, ..self }
    }

    /// Set target pixel format. The default is equal to the source format.
    pub fn target_format(self, format: i32) -> (r: FrameScalerBuilder)
        ensures
            r.spec_settings() == (ScalerSettings { tformat: Some(format), ..self.spec_settings() }),
    {
        FrameScalerBuilder { tformat: Some(format), ..self }
    }

    /// Set target frame width (stored as a C `int`).
    pub fn target_width(self, width: usize) -> (r: FrameScalerBuilder)
        ensures
            r.spec_settings() == (ScalerSettings { twidth: width as i32, ..self.spec_settings() }),
    {
        FrameScalerBuilder { twidth: width as i32, ..self }
    }

    /// Set target frame height (stored as a C `int`).
    pub fn target_height(self, height: usize) -> (r: FrameScalerBuilder)
        ensures
            r.spec_settings() == (ScalerSettings { theight: height as i32, ..self.spec_settings() }),
    {
        FrameScalerBuilder { theight: height as i32, ..self }
    }

    /// Set scaling algorithm. The default is bicubic.
    pub fn algorithm(self, algorithm: Algorithm) -> (r: FrameScalerBuilder)
        ensures
            r.spec_settings() == (ScalerSettings { algorithm, ..self.spec_settings() }),
    {
        FrameScalerBuilder { algorithm, ..self }
    }

    /// Check the settings and build the scaler configuration. Formats must
    /// not be negative and sizes must be positive; the first offending
    /// setting (source format, target format, source width, source height,
    /// target width, target height) is reported.
    pub fn build(self) -> (r: Result<FrameScaler, Error>)
        ensures
            scaler_build_result(self.spec_settings(), r),
    {
        let tformat = match self.tformat {
            Some(f) => f,
            None => self.sformat,
        };
        if self.sformat < 0 {
            return Err(Error::new("invalid source format".to_owned()));
        } else if tformat < 0 {
            return Err(Error::new("invalid target format".to_owned()));
        } else if self.swidth < 1 {
            return Err(Error::new("invalid source width".to_owned()));
        } else if self.sheight < 1 {
            return Err(Error::new("invalid source height".to_owned()));
        } else if self.twidth < 1 {
            return Err(Error::new("invalid target width".to_owned()));
        } else if self.theight < 1 {
            return Err(Error::new("invalid target height".to_owned()));
        }
        Ok(
            FrameScaler {
                sformat: self.sformat,
                swidth: self.swidth as usize,
                sheight: self.sheight as usize,
                tformat,
                twidth: self.twidth,
                theight: self.theight,
                algorithm: self.algorithm,
            },
        )
    }
}

/// What building a scaler from the settings `s` gives.
pub open spec fn scaler_build_result(s: ScalerSettings, r: Result<FrameScaler, Error>) -> bool {
    let tformat = match s.tformat {
        Some(f) => f,
        None => s.sformat,
    };
    if s.sformat < 0 {
        r matches Err(e) && e.spec_message() == Some("invalid source format"@)
    } else if tformat < 0 {
        r matches Err(e) && e.spec_message() == Some("invalid target format"@)
    } else if s.swidth < 1 {
        r matches Err(e) && e.spec_message() == Some("invalid source width"@)
    } else if s.sheight < 1 {
        r matches Err(e) && e.spec_message() == Some("invalid source height"@)
    } else if s.twidth < 1 {
        r matches Err(e) && e.spec_message() == Some("invalid target width"@)
    } else if s.theight < 1 {
        r matches Err(e) && e.spec_message() == Some("invalid target height"@)
    } else {
        r matches Ok(sc) && sc.spec_sformat() == s.sformat && sc.spec_swidth() == s.swidth
            && sc.spec_sheight() == s.sheight && sc.spec_tformat() == tformat && sc.spec_twidth()
            == s.twidth && sc.spec_theight() == s.theight && sc.spec_algorithm() == s.algorithm
    }
}

/// Video frame scaler (its configuration; the native scaler that does the
/// work is created from it).
pub struct FrameScaler {
    sformat: i32,
    swidth: usize,
    sheight: usize,
    tformat: i32,
    twidth: i32,
    theight: i32,
    algorithm: Algorithm,
}

impl FrameScaler {
    pub closed spec fn spec_sformat(self) -> i32 {
        self.sformat
    }

    pub closed spec fn spec_swidth(self) -> usize {
        self.swidth
    }

    pub closed spec fn spec_sheight(self) -> usize {
        self.sheight
    }

    pub closed spec fn spec_tformat(self) -> i32 {
        self.tformat
    }

    pub closed spec fn spec_twidth(self) -> i32 {
        self.twidth
    }

    pub closed spec fn spec_theight(self) -> i32 {
        self.theight
    }

    pub closed spec fn spec_algorithm(self) -> Algorithm {
        self.algorithm
    }

    /// Get a frame scaler builder.
    pub fn builder() -> (r: FrameScalerBuilder)
        ensures
            r.spec_settings() == (ScalerSettings {
                sformat: -1i32,
                swidth: 0i32,
                sheight: 0i32,
                tformat: None,
                twidth: 0i32,
                theight: 0i32,
                algorithm: Algorithm::Bicubic,
            }),
    {
        FrameScalerBuilder::new()
    }

    /// Source pixel format.
    pub fn source_format(&self) -> (r: i32)
        ensures
            r == self.spec_sformat(),
    {
        self.sformat
    }

    /// Source width.
    pub fn source_width(&self) -> (r: usize)
        ensures
            r == self.spec_swidth(),
    {
        self.swidth
    }

    /// Source height.
    pub fn source_height(&self) -> (r: usize)
        ensures
            r == self.spec_sheight(),
    {
        self.sheight
    }

    /// Target pixel format.
    pub fn target_format(&self) -> (r: i32)
        ensures
            r == self.spec_tformat(),
    {
        self.tformat
    }

    /// Target width.
    pub fn target_width(&self) -> (r: i32)
        ensures
            r == self.spec_twidth(),
    {
        self.twidth
    }

    /// Target height.
    pub fn target_height(&self) -> (r: i32)
        ensures
            r == self.spec_theight(),
    {
        self.theight
    }

    /// Scaling algorithm.
    pub fn algorithm(&self) -> (r: Algorithm)
        ensures
            r == self.spec_algorithm(),
    {
        self.algorithm
    }

    /// Check that a frame about to be scaled matches the source parameters:
    /// its width, then its height, then its pixel format.
    pub fn check_frame(&self, width: usize, height: usize, format: i32) -> (r: Result<(), Error>)
        ensures
            width != self.spec_swidth() ==> (r matches Err(e) && e.spec_message() == Some(
                "frame width does not match"@,
            )),
            width == self.spec_swidth() && height != self.spec_sheight() ==> (r matches Err(e)
                && e.spec_message() == Some("frame height does not match"@)),
            width == self.spec_swidth() && height == self.spec_sheight() && format
                != self.spec_sformat() ==> (r matches Err(e) && e.spec_message() == Some(
                "frame pixel format does not match"@,
            )),
            r is Ok <==> (width == self.spec_swidth() && height == self.spec_sheight() && format
                == self.spec_sformat()),
    {
        if self.swidth != width {
            return Err(Error::new("frame width does not match".to_owned()));
        } else if self.sheight != height {
            return Err(Error::new("frame height does not match".to_owned()));
        } else if self.sformat != format {
            return Err(Error::new("frame pixel format does not match".to_owned()));
        }
        Ok(())
    }
}

/// The native algorithm IDs: fast bilinear 0, bilinear 1, bicubic 2 (so
/// different algorithms have different IDs).
pub proof fn lemma_algorithm_ids(a: Algorithm, b: Algorithm)
    ensures
        Algorithm::FastBilinear.spec_id() == 0,
        Algorithm::Bilinear.spec_id() == 1,
        Algorithm::Bicubic.spec_id() == 2,
        a != b ==> a.spec_id() != b.spec_id(),
{
}

/// A scaler that was built converts from the source format and size that
/// were set into the target size that was set and into the target format
/// that was set, or into the source format when no target format was set,
/// with the chosen algorithm. It is built exactly when every format is not
/// negative and every dimension is positive.
pub proof fn lemma_scaler_keeps_settings(s: ScalerSettings, r: Result<FrameScaler, Error>)
    requires
        scaler_build_result(s, r),
    ensures
        s.tformat matches Some(f) ==> (r matches Ok(sc) ==> sc.spec_tformat() == f),
        s.tformat is None ==> (r matches Ok(sc) ==> sc.spec_tformat() == s.sformat),
        r matches Ok(sc) ==> sc.spec_sformat() == s.sformat && sc.spec_swidth() == s.swidth
            && sc.spec_sheight() == s.sheight && sc.spec_twidth() == s.twidth
            && sc.spec_theight() == s.theight && sc.spec_algorithm() == s.algorithm,
        r is Ok <==> (s.sformat >= 0 && (s.tformat matches Some(f) ==> f >= 0) && s.swidth >= 1
            && s.sheight >= 1 && s.twidth >= 1 && s.theight >= 1),
{
}

} // verus!
