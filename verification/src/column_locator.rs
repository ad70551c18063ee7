//! Which column of a view is meant, and which settings of it are open.

use vstd::prelude::*;

verus! {

/// Locates a column of a view: a column of the table, an expression that
/// was saved, or an expression that is still being written.
#[derive(Clone, Debug, PartialEq)]
pub enum ColumnLocator {
    Table(String),
    Expression(String),
    NewExpression,
}

impl ColumnLocator {
    /// The column's name. An expression that is still being written has
    /// none yet.
    pub fn name(&self) -> (name: Option<&String>)
        ensures
            match *self {
                ColumnLocator::Table(s) => name == Some(&s),
                ColumnLocator::Expression(s) => name == Some(&s),
                ColumnLocator::NewExpression => name is None,
            },
    {
        match self {
            ColumnLocator::Table(s) => Some(s),
            ColumnLocator::Expression(s) => Some(s),
            ColumnLocator::NewExpression => None,
        }
    }

    pub fn is_saved_expr(&self) -> (b: bool)
        ensures
            b == (*self is Expression),
    {
        match self {
            ColumnLocator::Expression(_) => true,
            _ => false,
        }
    }

    pub fn is_expr(&self) -> (b: bool)
        ensures
            b == (*self is Expression || *self is NewExpression),
    {
        match self {
            ColumnLocator::Expression(_) => true,
            ColumnLocator::NewExpression => true,
            _ => false,
        }
    }

    pub fn is_new_expr(&self) -> (b: bool)
        ensures
            b == (*self is NewExpression),
    {
        match self {
            ColumnLocator::NewExpression => true,
            _ => false,
        }
    }
}

/// A tab of a column's settings.
#[derive(Debug, Clone, Copy, PartialEq, Eq, Structural)]
pub enum ColumnSettingsTab {
    Attributes,
    Style,
}

impl Default for ColumnSettingsTab {
    fn default() -> (tab: Self)
        ensures
            tab == ColumnSettingsTab::Attributes,
    {
        ColumnSettingsTab::Attributes
    }
}

impl ColumnSettingsTab {
    /// The tab's name.
    pub fn to_string(&self) -> (name: String)
        ensures
            name@ == match *self {
                ColumnSettingsTab::Attributes => "Attributes"@,
                ColumnSettingsTab::Style => "Style"@,
            },
    {
        match self {
            ColumnSettingsTab::Attributes => "Attributes".to_owned(),
            ColumnSettingsTab::Style => "Style".to_owned(),
        }
    }
}

/// The column whose settings are open, and the tab that shows.
#[derive(Clone, Debug, PartialEq)]
pub struct OpenColumnSettings {
    pub locator: Option<ColumnLocator>,
    pub tab: Option<ColumnSettingsTab>,
}

impl Default for OpenColumnSettings {
    fn default() -> (settings: Self)
        ensures
            settings.locator is None,
            settings.tab is None,
    {
        OpenColumnSettings { locator: None, tab: None }
    }
}

impl OpenColumnSettings {
    /// The name of the column whose settings are open, if one is open and
    /// has a name.
    pub fn name(&self) -> (name: Option<String>)
        ensures
            match self.locator {
                Some(ColumnLocator::Table(s)) => name == Some(s),
                Some(ColumnLocator::Expression(s)) => name == Some(s),
                _ => name is None,
            },
    {
        match &self.locator {
            Some(locator) => match locator.name() {
                Some(s) => Some(s.clone()),
                None => None,
            },
            None => None,
        }
    }
}

/// What can name a tab of a column's settings.
pub trait ColumnTab: PartialEq + Clone + Default {

}

impl ColumnTab for String {

}

impl ColumnTab for &'static str {

}

impl ColumnTab for ColumnSettingsTab {

}

} // verus!
