pub mod dataset_scan;
pub mod pointer_chase;
pub mod vector_add;
pub mod working_set_sweep;

pub use dataset_scan::DatasetScan;
pub use pointer_chase::PointerChase;
pub use vector_add::VectorAdd;
pub use working_set_sweep::WorkingSetSweep;



