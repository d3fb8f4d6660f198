//! Configuration of the remote backend: the addresses of the three sibling
//! services, built once at startup and handed to every handler.

use crate::error::{Error, Variable};
use vstd::prelude::*;

verus! {

/// The addresses of the sibling services.
#[derive(Clone, Debug, PartialEq, Eq)]
pub struct Config {
    /// The memory service's read-range query.
    pub read_range_api: String,
    /// The memory service's initialise call.
    pub initialise_data_api: String,
    /// The execution service's start call.
    pub start_program_api: String,
}

impl Variable {
    /// The name under which the environment holds this variable.
    pub open spec fn name_of(self) -> Seq<char> {
        match self {
            Variable::ReadRangeApi => "READ_RANGE_API"@,
            Variable::InitialiseDataApi => "INITIALISE_DATA_API"@,
            Variable::StartProgramApi => "START_PROGRAM_API"@,
        }
    }

    /// The name under which the environment holds this variable.
    pub fn name(&self) -> (name: &'static str)
        ensures
            name@ == self.name_of(),
    {
        match self {
            Variable::ReadRangeApi => "READ_RANGE_API",
            Variable::InitialiseDataApi => "INITIALISE_DATA_API",
            Variable::StartProgramApi => "START_PROGRAM_API",
        }
    }
}

impl Config {
    /// The first variable that is absent, in the order in which they are
    /// read: read range, initialise data, start program.
    pub open spec fn first_missing(
        read_range_api: Option<String>,
        initialise_data_api: Option<String>,
        start_program_api: Option<String>,
    ) -> Option<Variable> {
        if read_range_api is None {
            Some(Variable::ReadRangeApi)
        } else if initialise_data_api is None {
            Some(Variable::InitialiseDataApi)
        } else if start_program_api is None {
            Some(Variable::StartProgramApi)
        } else {
            None
        }
    }

    /// Builds the configuration from the values found for the three
    /// variables. All three are required: the first that is absent is
    /// reported, and with all present the configuration holds them as given.
    pub fn from_values(
        read_range_api: Option<String>,
        initialise_data_api: Option<String>,
        start_program_api: Option<String>,
    ) -> (built: Result<Config, Error>)
        ensures
            match Config::first_missing(read_range_api, initialise_data_api, start_program_api) {
                Some(variable) => built == Err::<Config, Error>(Error::MissingVariable(variable)),
                None => built == Ok::<Config, Error>(
                    (Config {
                        read_range_api: read_range_api->Some_0,
                        initialise_data_api: initialise_data_api->Some_0,
                        start_program_api: start_program_api->Some_0,
                    }),
                ),
            },
    {
        let read_range_api: String = match read_range_api {
            Some(url) => url,
            None => {
                return Err(Error::MissingVariable(Variable::ReadRangeApi));
            },
        };
        let initialise_data_api: String = match initialise_data_api {
            Some(url) => url,
            None => {
                return Err(Error::MissingVariable(Variable::InitialiseDataApi));
            },
        };
        let start_program_api: String = match start_program_api {
            Some(url) => url,
            None => {
                return Err(Error::MissingVariable(Variable::StartProgramApi));
            },
        };
        Ok(Config { read_range_api, initialise_data_api, start_program_api })
    }
}

} // verus!
