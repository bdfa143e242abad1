use vstd::prelude::*;
use crate::exception::ConfigException;

verus! {

/// The values of the process settings, each absent where it is not set.
pub struct Variables {
    /// `DISCORD_TOKEN`
    pub discord_token: Option<String>,
    /// `MEGA_EMAIL`
    pub mega_email: Option<String>,
    /// `MEGA_PASSWORD`
    pub mega_password: Option<String>,
    /// `MEGA_DESTINATION_NODE`
    pub mega_destination_node: Option<String>,
}

/// Everything the process needs to start.
pub struct Config {
    pub env: Env,
}

/// The settings, grouped by the service they are for.
pub struct Env {
    pub discord: Discord,
    pub mega: Mega,
}

/// The chat bot's credentials.
pub struct Discord {
    pub token: String,
}

/// The storage account's credentials and the node that uploads go into.
pub struct Mega {
    pub email: String,
    pub password: String,
    pub destination_node: String,
}

impl Discord {
    pub fn load(vars: Variables) -> (r: Result<Discord, ConfigException>)
        ensures
            vars.discord_token matches Some(t) ==> (r matches Ok(d) && d.token == t),
            vars.discord_token is None ==> (r matches Err(e) && e.message@
                == "DISCORD_TOKEN is not set in the environment"@),
    {
        match vars.discord_token {
            Some(token) => Ok(Discord { token }),
            None => Err(ConfigException::new("DISCORD_TOKEN is not set in the environment")),
        }
    }
}

impl Mega {
    pub fn load(vars: Variables) -> (r: Result<Mega, ConfigException>)
        ensures
            vars.mega_email is None ==> (r matches Err(e) && e.message@
                == "MEGA_EMAIL is not set in the environment"@),
            vars.mega_email is Some && vars.mega_password is None ==> (r matches Err(e)
                && e.message@ == "MEGA_PASSWORD is not set in the environment"@),
            vars.mega_email is Some && vars.mega_password is Some
                && vars.mega_destination_node is None ==> (r matches Err(e) && e.message@
                == "MEGA_DESTINATION_NODE is not set in the environment"@),
            vars.mega_email is Some && vars.mega_password is Some
                && vars.mega_destination_node is Some ==> (r matches Ok(m) && m.email
                == vars.mega_email->0 && m.password == vars.mega_password->0 && m.destination_node
                == vars.mega_destination_node->0),
    {
        let email = match vars.mega_email {
            Some(email) => email,
            None => return Err(ConfigException::new("MEGA_EMAIL is not set in the environment")),
        };
        let password = match vars.mega_password {
            Some(password) => password,
            None => return Err(ConfigException::new("MEGA_PASSWORD is not set in the environment")),
        };
        let destination_node = match vars.mega_destination_node {
            Some(destination_node) => destination_node,
            None => return Err(
                ConfigException::new("MEGA_DESTINATION_NODE is not set in the environment"),
            ),
        };
        Ok(Mega { email, password, destination_node })
    }
}

/// Whether every setting is present.
pub open spec fn complete(vars: Variables) -> bool {
    &&& vars.discord_token is Some
    &&& vars.mega_email is Some
    &&& vars.mega_password is Some
    &&& vars.mega_destination_node is Some
}

/// The message of the first missing setting, in the order token, email,
/// password, destination node.
pub open spec fn first_missing(vars: Variables) -> Seq<char> {
    if vars.discord_token is None {
        "DISCORD_TOKEN is not set in the environment"@
    } else if vars.mega_email is None {
        "MEGA_EMAIL is not set in the environment"@
    } else if vars.mega_password is None {
        "MEGA_PASSWORD is not set in the environment"@
    } else {
        "MEGA_DESTINATION_NODE is not set in the environment"@
    }
}

impl Env {
    pub fn load(vars: Variables) -> (r: Result<Env, ConfigException>)
        ensures
            complete(vars) <==> r is Ok,
            r matches Ok(env) ==> env.discord.token == vars.discord_token->0 && env.mega.email
                == vars.mega_email->0 && env.mega.password == vars.mega_password->0
                && env.mega.destination_node == vars.mega_destination_node->0,
            r matches Err(e) ==> e.message@ == first_missing(vars),
    {
        let Variables { discord_token, mega_email, mega_password, mega_destination_node } = vars;
        let discord = Discord::load(
            Variables {
                discord_token,
                mega_email: None,
                mega_password: None,
                mega_destination_node: None,
            },
        )?;
        let mega = Mega::load(
            Variables { discord_token: None, mega_email, mega_password, mega_destination_node },
        )?;
        Ok(Env { discord, mega })
    }
}

impl Config {
    pub fn load(vars: Variables) -> (r: Result<Config, ConfigException>)
        ensures
            complete(vars) <==> r is Ok,
            r matches Ok(c) ==> c.env.discord.token == vars.discord_token->0 && c.env.mega.email
                == vars.mega_email->0 && c.env.mega.password == vars.mega_password->0
                && c.env.mega.destination_node == vars.mega_destination_node->0,
            r matches Err(e) ==> e.message@ == first_missing(vars),
    {
        let env = Env::load(vars)?;
        Ok(Config { env })
    }
}

} // verus!
