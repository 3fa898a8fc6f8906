pub mod hit_record;
pub mod hittable_list;
pub mod integrator;
pub mod material;
pub mod pixel;
pub mod ray;
pub mod scalar;
pub mod sphere;
pub mod vector;
