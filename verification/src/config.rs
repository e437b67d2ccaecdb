//! Plain configuration values for the service around the library.

use vstd::prelude::*;

verus! {

/// Which distribution is running, and at which version.
#[derive(Debug)]
pub struct DistributionConfig {
    pub name: String,
    pub version: String,
}

/// Which database backs the service.
#[derive(Debug)]
pub enum DatabaseConfig {
    Memory,
    MySql(MySqlDatabaseConfig),
}

/// Connection settings for a MySQL database.
#[derive(Debug)]
pub struct MySqlDatabaseConfig {
    pub connection: String,
}

impl Clone for DistributionConfig {
    /// Clones the configuration, value for value.
    fn clone(&self) -> (r: Self)
        ensures
            r == *self,
    {
        DistributionConfig { name: self.name.clone(), version: self.version.clone() }
    }
}

impl Clone for MySqlDatabaseConfig {
    /// Clones the configuration, value for value.
    fn clone(&self) -> (r: Self)
        ensures
            r == *self,
    {
        MySqlDatabaseConfig { connection: self.connection.clone() }
    }
}

impl Clone for DatabaseConfig {
    /// Clones the configuration, value for value.
    fn clone(&self) -> (r: Self)
        ensures
            r == *self,
    {
        match self {
            DatabaseConfig::Memory => DatabaseConfig::Memory,
            DatabaseConfig::MySql(c) => DatabaseConfig::MySql(c.clone()),
        }
    }
}

} // verus!
