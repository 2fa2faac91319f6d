//! Window-size requests against the pseudo-terminal.
//!
//! The resize operation of the bridge carries nothing but a size
//! descriptor to the platform's resize call on the master end. The
//! descriptor is built here, so what reaches the platform is pinned:
//! exactly the requested rows and columns, with the pixel fields zero.

use vstd::prelude::*;

verus! {

/// A pseudo-terminal size descriptor, as the platform's PTY facility
/// takes it.
#[derive(Clone, Copy, PartialEq, Eq, Structural, Debug)]
pub struct PtyDims {
    pub rows: u16,
    pub cols: u16,
    pub pixel_width: u16,
    pub pixel_height: u16,
}

/// The resize operation of the bridge: the descriptor for a request of
/// `rows` by `cols`. Rows and columns pass through unchanged; the pixel
/// dimensions are left zero, as the session never reports them.
pub fn resize_request(rows: u16, cols: u16) -> (d: PtyDims)
    ensures
        d.rows == rows,
        d.cols == cols,
        d.pixel_width == 0,
        d.pixel_height == 0,
{
    PtyDims { rows, cols, pixel_width: 0, pixel_height: 0 }
}

/// The size the session's pseudo-terminal pair is opened with, before
/// any resize request: 24 rows by 80 columns.
pub fn initial_size() -> (d: PtyDims)
    ensures
        d == (PtyDims { rows: 24, cols: 80, pixel_width: 0, pixel_height: 0 }),
{
    PtyDims { rows: 24, cols: 80, pixel_width: 0, pixel_height: 0 }
}

} // verus!
