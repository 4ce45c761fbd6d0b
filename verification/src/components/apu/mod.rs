pub mod period_timer;
pub mod volume_envelope;
