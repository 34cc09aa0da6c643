use vstd::prelude::*;

verus! {

/// Counts over the student store.
#[derive(Debug, Clone)]
pub struct DatabaseStats {
    pub total_students: i64,
    pub active_students: i64,
    pub total_payments: i64,
    pub total_attendance: i64,
    pub database_size: i64,
}

/// The school's identity and display preferences.
#[derive(Debug, Clone)]
pub struct GeneralSettings {
    pub school_name: String,
    pub school_address: String,
    pub school_phone: String,
    pub school_email: String,
    pub academic_year: String,
    pub language: String,
    pub theme: String,
    pub currency: String,
    pub timezone: String,
}

/// How the badge reader is reached and behaves.
#[derive(Debug, Clone)]
pub struct RfidSettings {
    pub reader_type: String,
    pub com_port: String,
    pub baud_rate: u32,
    pub auto_connect: bool,
    pub scan_timeout: u32,
    pub enable_sound: bool,
    pub enable_led: bool,
}

/// When and where backups are made.
#[derive(Debug, Clone)]
pub struct BackupSettings {
    pub auto_backup: bool,
    pub backup_interval: String,
    pub backup_location: String,
    pub keep_backups: i32,
    pub cloud_sync: bool,
    pub cloud_provider: String,
}

/// Logging, update and telemetry switches.
#[derive(Debug, Clone)]
pub struct SystemSettings {
    pub enable_logging: bool,
    pub log_level: String,
    pub max_log_size: i32,
    pub enable_updates: bool,
    pub update_channel: String,
    pub enable_telemetry: bool,
}

} // verus!
