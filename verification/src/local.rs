//! Estructuras correspondientes a un local, permitiendo su interaccion
//! con un ecommerce y el manejo de sus pedidos propios

pub mod empleado;
pub mod guardian;
pub mod mensajero;
pub mod mensajes_actores;
pub mod protocolo;
pub mod servidor;
