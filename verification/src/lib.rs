//! Biblioteca verificada do SecureChat: endereços locais, framing TCP,
//! handshake Noise XX, fingerprint e a máquina de estados da sessão.

pub mod address;
pub mod framing;
pub mod noise_lab;
pub mod tcp_handshake;
pub mod verification;
