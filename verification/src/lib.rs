//! The verified core of Rau Studio: the internet radio's profile rules, FFmpeg
//! command lines, PCM mixing and worker state machines; the rules of the peer
//! catalog, file and chat protocols; FFmpeg binary selection; the Turn
//! renderer's names, mask and progress; and which applications' audio can be
//! captured, in what order.
pub mod clock;
pub mod text;
pub mod application_audio;
pub mod broadcast;
pub mod turn;
pub mod system;
pub mod p2p;
