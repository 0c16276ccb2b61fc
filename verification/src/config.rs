//! The configuration of a run, as read from `config/config.properties`.

use vstd::prelude::*;

verus! {

/// The application's name and version (`app.name`, `app.version`).
#[derive(Debug)]
pub struct AppConfig {
    pub name: String,
    pub version: String,
}

/// The Postgres connection details, reserved for future use
/// (`database.user`, `database.password`, `database.host`, `database.port`).
#[derive(Debug)]
pub struct DatabaseConfig {
    pub user: String,
    pub password: String,
    pub host: String,
    pub port: u16,
}

/// The Notion API endpoint and credentials, and the ids of the databases and
/// of the stats page (`notion.api.url`, `notion.api.version`,
/// `notion.api.token`, `daily.database.id`, `habits.database.id`,
/// `habits.master.database.id`, `daily.stats.page.id`).
#[derive(Debug)]
pub struct NotionApiConfig {
    pub url: String,
    pub version: String,
    pub token: String,
    pub daily_database_id: String,
    pub habits_database_id: String,
    pub habits_master_database_id: String,
    pub daily_stats_page_id: String,
}

/// The whole configuration: one flat properties file split into its groups.
#[derive(Debug)]
pub struct Config {
    pub app: AppConfig,
    pub database: DatabaseConfig,
    pub notion: NotionApiConfig,
}

} // verus!
