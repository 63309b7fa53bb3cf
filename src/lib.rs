//! Host-side logic of a GPU-driven grass renderer: buffer sizing, the
//! triangle-strip index buffer, compute dispatch sizing, a model of the
//! counters and output regions of the expansion kernels, the fixed state of
//! the grass pipelines and their specialization keys, the order of a
//! frame's passes, the layout of per-entity uniforms, and the small integer
//! meshes used for static geometry.
pub mod index_buffer;
pub mod sizing;
pub mod kernel;
pub mod pipeline_key;
pub mod pipeline;
pub mod source_grid;
pub mod mesh;
pub mod quadtree;
pub mod uniform_slots;
pub mod frame;
