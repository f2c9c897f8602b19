use bassin::definitions::{Doors, DriverType};
use bassin::error::HardwareError;
use bassin::text::{decimal, hex_byte};

#[test]
fn decimal_and_hex_renderings() {
    assert_eq!(decimal(0), "0");
    assert_eq!(decimal(7), "7");
    assert_eq!(decimal(10), "10");
    assert_eq!(decimal(65535), "65535");
    assert_eq!(decimal(u64::MAX), u64::MAX.to_string());
    assert_eq!(hex_byte(0), "0x00");
    assert_eq!(hex_byte(0x0a), "0x0a");
    assert_eq!(hex_byte(0xff), "0xff");
    for b in 0..=255u8 {
        assert_eq!(hex_byte(b), format!("{:#04x}", b));
    }
}

#[test]
fn message_of_each_error() {
    assert_eq!(HardwareError::NotPowered.to_string(), "Bassin pas allumé");
    assert_eq!(HardwareError::NotStarted.to_string(), "Bassin pas démarré");
    assert_eq!(HardwareError::ArrMom.to_string(), "Les drivers sont en arrêt momentané");
    assert_eq!(HardwareError::ArrUrg.to_string(), "Le bassin est en arret d'urgence");
    assert_eq!(
        HardwareError::OpenDoor(Doors::DroiteHaut).to_string(),
        "Porte Droite Haut ouverte"
    );
    assert_eq!(
        HardwareError::MovmentNotFinished(DriverType::EY).to_string(),
        "Mouvement du Driver du moteur Y émetteur non fini"
    );
    assert_eq!(HardwareError::I2cCreation.to_string(), "Echec de la création de l'I2C");
    assert_eq!(
        HardwareError::I2cSetSlave(108, DriverType::EX).to_string(),
        "Echec du setting de l'adresse I2C a 108 pour le Driver du moteur X émetteur"
    );
    assert_eq!(
        HardwareError::I2cRead(DriverType::RX, 2).to_string(),
        "Lecture de l'adresse 0x02 l'I2C du Driver du moteur X récepteur a l'adresse "
    );
    assert_eq!(
        HardwareError::I2cWrite(DriverType::RY, 0x40, 0x01).to_string(),
        "Écriture sur l'I2C du Driver du moteur Y récepteur de la donnée 0x40 a l'adresse 0x01 raté"
    );
    assert_eq!(
        HardwareError::BadI2cResponse(DriverType::EZ, 0x51, 0x08).to_string(),
        "Le Driver du moteur Z émetteur du bassin a lue la donnée 0x51 au lieu de 0x08"
    );
    assert_eq!(HardwareError::PinExport(44).to_string(), "GPIO_44 non exporté");
    assert_eq!(HardwareError::PinDirection(65).to_string(), "Direction du GPIO_65");
    assert_eq!(HardwareError::PinWrite(61).to_string(), "Problème d'écriture du GPIO_61");
    assert_eq!(HardwareError::PinRead(100).to_string(), "Problème de lecture du GPIO_100");
    assert_eq!(
        HardwareError::UnknownError("Format de fichier invalide".to_string()).to_string(),
        "Format de fichier invalide"
    );
}

#[test]
fn driver_named_by_an_error() {
    assert_eq!(HardwareError::I2cSetSlave(1, DriverType::RZ).driver(), Some(DriverType::RZ));
    assert_eq!(HardwareError::I2cRead(DriverType::EX, 0).driver(), Some(DriverType::EX));
    assert_eq!(HardwareError::I2cWrite(DriverType::RY, 0, 0).driver(), Some(DriverType::RY));
    assert_eq!(HardwareError::BadI2cResponse(DriverType::ETHETA, 1, 2).driver(), Some(DriverType::ETHETA));
    assert_eq!(HardwareError::MovmentNotFinished(DriverType::E).driver(), Some(DriverType::E));
    assert_eq!(HardwareError::PinRead(3).driver(), None);
    assert_eq!(HardwareError::OpenDoor(Doors::GaucheBas).driver(), None);
    assert_eq!(HardwareError::NotPowered.driver(), None);
}
