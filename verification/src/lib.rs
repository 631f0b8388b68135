pub mod text;
pub mod laws;
pub mod status;
pub mod decimal;
pub mod errno;
pub mod state;
pub mod socket_path;
pub mod pipe;
pub mod pthread_mutex;
pub mod sem_init;
pub mod semget;
