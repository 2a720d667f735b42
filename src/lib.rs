//! An H.264 key-frame filter stage and the decisions of the pipeline that
//! hosts it: which buffers pass, where control traffic is relayed, how the
//! stage chain is assembled and linked, and how the run reacts to its bus.
pub mod bus_monitor;
pub mod element;
pub mod frame_filter;
pub mod pipeline;
