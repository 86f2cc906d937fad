//! Integer side of the Carr–Madan option-pricing engine: the transform length,
//! the quadrature weights of the frequency grid, and the choice of the grid
//! point nearest a requested strike.
pub mod grid;
pub mod quadrature;
pub mod selector;
