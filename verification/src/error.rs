//! Errors reported by the hardware side of the basin.
use crate::definitions::{door_label, driver_label, Doors, DriverType};
use crate::text::{decimal, decimal_text, hex_byte, hex_byte_text};
use vstd::prelude::*;

verus! {

/// The possible errors at hardware level.
#[derive(Clone, Debug, PartialEq, Eq)]
pub enum HardwareError {
    /// The basin is not powered (while the basin is not started its power
    /// cannot be read and it always reads as unpowered).
    NotPowered,
    /// The basin is not started.
    NotStarted,
    /// The basin is in momentary stop.
    ArrMom,
    /// The basin is in emergency stop.
    ArrUrg,
    /// The given door is open.
    OpenDoor(Doors),
    /// The movement on the given driver is not finished, so no new movement
    /// can start.
    MovmentNotFinished(DriverType),
    /// The I2C bus could not be opened.
    I2cCreation,
    /// The I2C bus could not be set to the address of the given driver.
    I2cSetSlave(u16, DriverType),
    /// The I2C bridge of the driver could not be read at the given register.
    I2cRead(DriverType, u8),
    /// The given data could not be written at the given register of the I2C
    /// bridge of the driver.
    I2cWrite(DriverType, u8, u8),
    /// The driver echoed the first byte where the second was sent.
    BadI2cResponse(DriverType, u8, u8),
    /// The GPIO could not be exported.
    PinExport(u8),
    /// The GPIO could not be set to the wanted direction.
    PinDirection(u8),
    /// The GPIO could not be written.
    PinWrite(u8),
    /// The GPIO could not be read.
    PinRead(u8),
    /// Any other, rare, error.
    UnknownError(String),
}

/// The message shown for an error.
pub open spec fn error_message(e: HardwareError) -> Seq<char> {
    match e {
        HardwareError::NotPowered => "Bassin pas allumé"@,
        HardwareError::NotStarted => "Bassin pas démarré"@,
        HardwareError::OpenDoor(d) => door_label(d) + " ouverte"@,
        HardwareError::ArrMom => "Les drivers sont en arrêt momentané"@,
        HardwareError::ArrUrg => "Le bassin est en arret d'urgence"@,
        HardwareError::MovmentNotFinished(dt) => "Mouvement du "@ + driver_label(dt) + " non fini"@,
        HardwareError::I2cCreation => "Echec de la création de l'I2C"@,
        HardwareError::I2cSetSlave(addr, driver) => "Echec du setting de l'adresse I2C a "@
            + decimal_text(addr as nat) + " pour le "@ + driver_label(driver),
        HardwareError::I2cRead(dt, register) => "Lecture de l'adresse "@ + hex_byte_text(register)
            + " l'I2C du "@ + driver_label(dt) + " a l'adresse "@,
        HardwareError::I2cWrite(dt, data, addr) => "Écriture sur l'I2C du "@ + driver_label(dt)
            + " de la donnée "@ + hex_byte_text(data) + " a l'adresse "@ + hex_byte_text(addr)
            + " raté"@,
        HardwareError::BadI2cResponse(dt, data_in, data_out) => "Le "@ + driver_label(dt)
            + " du bassin a lue la donnée "@ + hex_byte_text(data_in) + " au lieu de "@
            + hex_byte_text(data_out),
        HardwareError::PinExport(p) => "GPIO_"@ + decimal_text(p as nat) + " non exporté"@,
        HardwareError::PinDirection(p) => "Direction du GPIO_"@ + decimal_text(p as nat),
        HardwareError::PinWrite(p) => "Problème d'écriture du GPIO_"@ + decimal_text(p as nat),
        HardwareError::PinRead(p) => "Problème de lecture du GPIO_"@ + decimal_text(p as nat),
        HardwareError::UnknownError(s) => s@,
    }
}

/// The driver an error is about, for the errors that name one.
pub open spec fn error_driver(e: HardwareError) -> Option<DriverType> {
    match e {
        HardwareError::I2cSetSlave(_, dt) => Some(dt),
        HardwareError::I2cRead(dt, _) => Some(dt),
        HardwareError::I2cWrite(dt, _, _) => Some(dt),
        HardwareError::BadI2cResponse(dt, _, _) => Some(dt),
        HardwareError::MovmentNotFinished(dt) => Some(dt),
        _ => None,
    }
}

impl HardwareError {
    /// The message shown for the error.
    pub fn to_string(&self) -> (s: String)
        ensures
            s@ == error_message(*self),
    {
        match self {
            HardwareError::NotPowered => String::from_str("Bassin pas allumé"),
            HardwareError::NotStarted => String::from_str("Bassin pas démarré"),
            HardwareError::OpenDoor(d) => {
                let s = d.to_string();
                s.concat(" ouverte")
            },
            HardwareError::ArrMom => String::from_str("Les drivers sont en arrêt momentané"),
            HardwareError::ArrUrg => String::from_str("Le bassin est en arret d'urgence"),
            HardwareError::MovmentNotFinished(dt) => {
                let s = String::from_str("Mouvement du ");
                let s = s.concat(dt.to_string().as_str());
                s.concat(" non fini")
            },
            HardwareError::I2cCreation => String::from_str("Echec de la création de l'I2C"),
            HardwareError::I2cSetSlave(addr, driver) => {
                let s = String::from_str("Echec du setting de l'adresse I2C a ");
                let s = s.concat(decimal(*addr as u64).as_str());
                let s = s.concat(" pour le ");
                s.concat(driver.to_string().as_str())
            },
            HardwareError::I2cRead(dt, register) => {
                let s = String::from_str("Lecture de l'adresse ");
                let s = s.concat(hex_byte(*register).as_str());
                let s = s.concat(" l'I2C du ");
                let s = s.concat(dt.to_string().as_str());
                s.concat(" a l'adresse ")
            },
            HardwareError::I2cWrite(dt, data, addr) => {
                let s = String::from_str("Écriture sur l'I2C du ");
                let s = s.concat(dt.to_string().as_str());
                let s = s.concat(" de la donnée ");
                let s = s.concat(hex_byte(*data).as_str());
                let s = s.concat(" a l'adresse ");
                let s = s.concat(hex_byte(*addr).as_str());
                s.concat(" raté")
            },
            HardwareError::BadI2cResponse(dt, data_in, data_out) => {
                let s = String::from_str("Le ");
                let s = s.concat(dt.to_string().as_str());
                let s = s.concat(" du bassin a lue la donnée ");
                let s = s.concat(hex_byte(*data_in).as_str());
                let s = s.concat(" au lieu de ");
                s.concat(hex_byte(*data_out).as_str())
            },
            HardwareError::PinExport(p) => {
                let s = String::from_str("GPIO_");
                let s = s.concat(decimal(*p as u64).as_str());
                s.concat(" non exporté")
            },
            HardwareError::PinDirection(p) => {
                let s = String::from_str("Direction du GPIO_");
                s.concat(decimal(*p as u64).as_str())
            },
            HardwareError::PinWrite(p) => {
                let s = String::from_str("Problème d'écriture du GPIO_");
                s.concat(decimal(*p as u64).as_str())
            },
            HardwareError::PinRead(p) => {
                let s = String::from_str("Problème de lecture du GPIO_");
                s.concat(decimal(*p as u64).as_str())
            },
            HardwareError::UnknownError(msg) => {
                let s = String::new();
                s.concat(msg.as_str())
            },
        }
    }

    /// The driver the error is about, for the errors that name one (the
    /// interface then considers that driver as no longer moving).
    pub fn driver(&self) -> (r: Option<DriverType>)
        ensures
            r == error_driver(*self),
    {
        match self {
            HardwareError::I2cSetSlave(_, dt) => Some(*dt),
            HardwareError::I2cRead(dt, _) => Some(*dt),
            HardwareError::I2cWrite(dt, _, _) => Some(*dt),
            HardwareError::BadI2cResponse(dt, _, _) => Some(*dt),
            HardwareError::MovmentNotFinished(dt) => Some(*dt),
            _ => None,
        }
    }
}

} // verus!
